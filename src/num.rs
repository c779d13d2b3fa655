use vstd::prelude::*;

use crate::sealed::Sealed;

verus! {

/// A fixed-width unsigned integer that can hold the raw value of a register.
///
/// A value is modelled by its bits: `bit(i)` tells whether bit `i` is one,
/// and two values with the same bits are equal.
pub trait Int: Copy + Sized + Sealed {
    /// The number of bits of the type.
    spec fn width() -> nat;

    /// Whether bit `i` is one; bits below 0 or at or above the width are
    /// never one.
    spec fn bit(self, i: int) -> bool;

    /// Bitwise AND.
    spec fn and_spec(self, rhs: Self) -> Self;

    /// Bitwise OR.
    spec fn or_spec(self, rhs: Self) -> Self;

    /// Bitwise NOT.
    spec fn not_spec(self) -> Self;

    /// Shift towards the high bits by `n`, dropping what falls off.
    spec fn shl_spec(self, n: nat) -> Self;

    /// Shift towards bit 0 by `n`, dropping what falls off.
    spec fn shr_spec(self, n: nat) -> Self;

    /// The value with no bit set.
    spec fn zero_spec() -> Self;

    /// The value with only bit 0 set.
    spec fn one_spec() -> Self;

    /// What each operation does to the bits.
    proof fn lemma_bit_ops(a: Self, b: Self)
        ensures
            Self::width() > 0,
            forall|i: int| #[trigger] a.bit(i) ==> 0 <= i < Self::width(),
            forall|i: int| #[trigger] a.and_spec(b).bit(i) == (a.bit(i) && b.bit(i)),
            forall|i: int| #[trigger] a.or_spec(b).bit(i) == (a.bit(i) || b.bit(i)),
            forall|i: int| #[trigger] a.not_spec().bit(i) == (0 <= i < Self::width() && !a.bit(i)),
            forall|i: int| !(#[trigger] Self::zero_spec().bit(i)),
            forall|i: int| #[trigger] Self::one_spec().bit(i) == (i == 0),
            forall|n: nat, i: int|
                n < Self::width() ==> #[trigger] a.shl_spec(n).bit(i) == (n <= i < Self::width()
                    && a.bit(i - n)),
            forall|n: nat, i: int|
                n < Self::width() ==> #[trigger] a.shr_spec(n).bit(i) == (0 <= i && a.bit(i + n)),
    ;

    /// A value is determined by its bits.
    proof fn lemma_bits_eq(a: Self, b: Self)
        requires
            forall|i: int| 0 <= i < Self::width() ==> #[trigger] a.bit(i) == b.bit(i),
        ensures
            a == b,
    ;

    /// The number of bits of the type.
    fn bit_width() -> (r: usize)
        ensures
            r == Self::width(),
    ;

    /// The value with no bit set.
    fn zero() -> (r: Self)
        ensures
            r == Self::zero_spec(),
    ;

    /// The value with only bit 0 set.
    fn one() -> (r: Self)
        ensures
            r == Self::one_spec(),
    ;

    /// Bitwise AND.
    fn bit_and(self, rhs: Self) -> (r: Self)
        ensures
            r == self.and_spec(rhs),
    ;

    /// Bitwise OR.
    fn bit_or(self, rhs: Self) -> (r: Self)
        ensures
            r == self.or_spec(rhs),
    ;

    /// Bitwise NOT.
    fn bit_not(self) -> (r: Self)
        ensures
            r == self.not_spec(),
    ;

    /// Shift towards the high bits.
    fn shift_left(self, n: usize) -> (r: Self)
        requires
            n < Self::width(),
        ensures
            r == self.shl_spec(n as nat),
    ;

    /// Shift towards bit 0.
    fn shift_right(self, n: usize) -> (r: Self)
        requires
            n < Self::width(),
        ensures
            r == self.shr_spec(n as nat),
    ;

    /// Equality of two values.
    fn equals(self, rhs: Self) -> (r: bool)
        ensures
            r == (self == rhs),
    ;
}

// What the operations on `u64` do to one bit, and the facts about bits
// that `lemma_bits_eq` is built from.
proof fn lemma_u64_bits(a: u64, b: u64, i: u64, n: u64)
    by (bit_vector)
    requires
        i < 64,
        n < 64,
    ensures
        ((a & b) >> i) & 1 == 1 <==> ((a >> i) & 1 == 1 && (b >> i) & 1 == 1),
        ((a | b) >> i) & 1 == 1 <==> ((a >> i) & 1 == 1 || (b >> i) & 1 == 1),
        ((a ^ b) >> i) & 1 == 1 <==> ((a >> i) & 1 == 1) != ((b >> i) & 1 == 1),
        ((!a) >> i) & 1 == 1 <==> (a >> i) & 1 != 1,
        ((a << n) >> i) & 1 == 1 <==> (n <= i && (a >> ((i - n) as u64)) & 1 == 1),
        ((a >> n) >> i) & 1 == 1 <==> (i + n < 64 && (a >> ((i + n) as u64)) & 1 == 1),
        (0u64 >> i) & 1 != 1,
        (1u64 >> i) & 1 == 1 <==> i == 0,
        a ^ b == 0 ==> a == b,
        (i == 63 || a >> ((i + 1) as u64) == 0) && (a >> i) & 1 != 1 ==> a >> i == 0,
{
}

/// Clearing bits from the top down: a value with no bit set is zero.
proof fn lemma_u64_high_zero(x: u64, k: u64)
    requires
        k < 64,
        forall|i: int| !(#[trigger] x.bit(i)),
    ensures
        x >> k == 0,
    decreases 64 - k,
{
    if k < 63 {
        lemma_u64_high_zero(x, (k + 1) as u64);
    }
    assert(!x.bit(k as int));
    lemma_u64_bits(x, x, k, 0);
}

impl Int for u64 {
    open spec fn width() -> nat {
        64
    }

    open spec fn bit(self, i: int) -> bool {
        0 <= i < 64 && (self >> (i as u64)) & 1 == 1
    }

    open spec fn and_spec(self, rhs: u64) -> u64 {
        self & rhs
    }

    open spec fn or_spec(self, rhs: u64) -> u64 {
        self | rhs
    }

    open spec fn not_spec(self) -> u64 {
        !self
    }

    open spec fn shl_spec(self, n: nat) -> u64 {
        self << (n as u64)
    }

    open spec fn shr_spec(self, n: nat) -> u64 {
        self >> (n as u64)
    }

    open spec fn zero_spec() -> u64 {
        0
    }

    open spec fn one_spec() -> u64 {
        1
    }

    proof fn lemma_bit_ops(a: u64, b: u64) {
        assert forall|i: int| #[trigger] a.and_spec(b).bit(i) == (a.bit(i) && b.bit(i)) by {
            if 0 <= i < 64 {
                lemma_u64_bits(a, b, i as u64, 0);
            }
        }
        assert forall|i: int| #[trigger] a.or_spec(b).bit(i) == (a.bit(i) || b.bit(i)) by {
            if 0 <= i < 64 {
                lemma_u64_bits(a, b, i as u64, 0);
            }
        }
        assert forall|i: int| #[trigger] a.not_spec().bit(i) == (0 <= i < 64 && !a.bit(i)) by {
            if 0 <= i < 64 {
                lemma_u64_bits(a, b, i as u64, 0);
            }
        }
        assert forall|i: int| !(#[trigger] Self::zero_spec().bit(i)) by {
            if 0 <= i < 64 {
                lemma_u64_bits(a, b, i as u64, 0);
            }
        }
        assert forall|i: int| #[trigger] Self::one_spec().bit(i) == (i == 0) by {
            if 0 <= i < 64 {
                lemma_u64_bits(a, b, i as u64, 0);
            }
        }
        assert forall|n: nat, i: int| n < 64 implies #[trigger] a.shl_spec(n).bit(i) == (n <= i
            < 64 && a.bit(i - n)) by {
            if 0 <= i < 64 {
                lemma_u64_bits(a, b, i as u64, n as u64);
            }
        }
        assert forall|n: nat, i: int| n < 64 implies #[trigger] a.shr_spec(n).bit(i) == (0 <= i
            && a.bit(i + n)) by {
            if 0 <= i < 64 {
                lemma_u64_bits(a, b, i as u64, n as u64);
            }
        }
    }

    proof fn lemma_bits_eq(a: u64, b: u64) {
        let x = a ^ b;
        assert forall|i: int| !(#[trigger] x.bit(i)) by {
            if 0 <= i < 64 {
                assert(a.bit(i) == b.bit(i));
                lemma_u64_bits(a, b, i as u64, 0);
            }
        }
        lemma_u64_high_zero(x, 0);
        lemma_u64_bits(a, b, 0, 0);
        assert(x >> 0u64 == x) by (bit_vector);
    }

    fn bit_width() -> (r: usize) {
        64
    }

    fn zero() -> (r: u64) {
        0
    }

    fn one() -> (r: u64) {
        1
    }

    fn bit_and(self, rhs: u64) -> (r: u64) {
        self & rhs
    }

    fn bit_or(self, rhs: u64) -> (r: u64) {
        self | rhs
    }

    fn bit_not(self) -> (r: u64) {
        !self
    }

    fn shift_left(self, n: usize) -> (r: u64) {
        self << (n as u64)
    }

    fn shift_right(self, n: usize) -> (r: u64) {
        self >> (n as u64)
    }

    fn equals(self, rhs: u64) -> (r: bool) {
        self == rhs
    }
}

// What the operations on `u8` do to one bit, and the facts about bits
// that `lemma_bits_eq` is built from.
proof fn lemma_u8_bits(a: u8, b: u8, i: u8, n: u8)
    by (bit_vector)
    requires
        i < 8,
        n < 8,
    ensures
        ((a & b) >> i) & 1 == 1 <==> ((a >> i) & 1 == 1 && (b >> i) & 1 == 1),
        ((a | b) >> i) & 1 == 1 <==> ((a >> i) & 1 == 1 || (b >> i) & 1 == 1),
        ((a ^ b) >> i) & 1 == 1 <==> ((a >> i) & 1 == 1) != ((b >> i) & 1 == 1),
        ((!a) >> i) & 1 == 1 <==> (a >> i) & 1 != 1,
        ((a << n) >> i) & 1 == 1 <==> (n <= i && (a >> ((i - n) as u8)) & 1 == 1),
        ((a >> n) >> i) & 1 == 1 <==> (i + n < 8 && (a >> ((i + n) as u8)) & 1 == 1),
        (0u8 >> i) & 1 != 1,
        (1u8 >> i) & 1 == 1 <==> i == 0,
        a ^ b == 0 ==> a == b,
        (i == 7 || a >> ((i + 1) as u8) == 0) && (a >> i) & 1 != 1 ==> a >> i == 0,
{
}

/// Clearing bits from the top down: a value with no bit set is zero.
proof fn lemma_u8_high_zero(x: u8, k: u8)
    requires
        k < 8,
        forall|i: int| !(#[trigger] x.bit(i)),
    ensures
        x >> k == 0,
    decreases 8 - k,
{
    if k < 7 {
        lemma_u8_high_zero(x, (k + 1) as u8);
    }
    assert(!x.bit(k as int));
    lemma_u8_bits(x, x, k, 0);
}

impl Int for u8 {
    open spec fn width() -> nat {
        8
    }

    open spec fn bit(self, i: int) -> bool {
        0 <= i < 8 && (self >> (i as u8)) & 1 == 1
    }

    open spec fn and_spec(self, rhs: u8) -> u8 {
        self & rhs
    }

    open spec fn or_spec(self, rhs: u8) -> u8 {
        self | rhs
    }

    open spec fn not_spec(self) -> u8 {
        !self
    }

    open spec fn shl_spec(self, n: nat) -> u8 {
        self << (n as u8)
    }

    open spec fn shr_spec(self, n: nat) -> u8 {
        self >> (n as u8)
    }

    open spec fn zero_spec() -> u8 {
        0
    }

    open spec fn one_spec() -> u8 {
        1
    }

    proof fn lemma_bit_ops(a: u8, b: u8) {
        assert forall|i: int| #[trigger] a.and_spec(b).bit(i) == (a.bit(i) && b.bit(i)) by {
            if 0 <= i < 8 {
                lemma_u8_bits(a, b, i as u8, 0);
            }
        }
        assert forall|i: int| #[trigger] a.or_spec(b).bit(i) == (a.bit(i) || b.bit(i)) by {
            if 0 <= i < 8 {
                lemma_u8_bits(a, b, i as u8, 0);
            }
        }
        assert forall|i: int| #[trigger] a.not_spec().bit(i) == (0 <= i < 8 && !a.bit(i)) by {
            if 0 <= i < 8 {
                lemma_u8_bits(a, b, i as u8, 0);
            }
        }
        assert forall|i: int| !(#[trigger] Self::zero_spec().bit(i)) by {
            if 0 <= i < 8 {
                lemma_u8_bits(a, b, i as u8, 0);
            }
        }
        assert forall|i: int| #[trigger] Self::one_spec().bit(i) == (i == 0) by {
            if 0 <= i < 8 {
                lemma_u8_bits(a, b, i as u8, 0);
            }
        }
        assert forall|n: nat, i: int| n < 8 implies #[trigger] a.shl_spec(n).bit(i) == (n <= i
            < 8 && a.bit(i - n)) by {
            if 0 <= i < 8 {
                lemma_u8_bits(a, b, i as u8, n as u8);
            }
        }
        assert forall|n: nat, i: int| n < 8 implies #[trigger] a.shr_spec(n).bit(i) == (0 <= i
            && a.bit(i + n)) by {
            if 0 <= i < 8 {
                lemma_u8_bits(a, b, i as u8, n as u8);
            }
        }
    }

    proof fn lemma_bits_eq(a: u8, b: u8) {
        let x = a ^ b;
        assert forall|i: int| !(#[trigger] x.bit(i)) by {
            if 0 <= i < 8 {
                assert(a.bit(i) == b.bit(i));
                lemma_u8_bits(a, b, i as u8, 0);
            }
        }
        lemma_u8_high_zero(x, 0);
        lemma_u8_bits(a, b, 0, 0);
        assert(x >> 0u8 == x) by (bit_vector);
    }

    fn bit_width() -> (r: usize) {
        8
    }

    fn zero() -> (r: u8) {
        0
    }

    fn one() -> (r: u8) {
        1
    }

    fn bit_and(self, rhs: u8) -> (r: u8) {
        self & rhs
    }

    fn bit_or(self, rhs: u8) -> (r: u8) {
        self | rhs
    }

    fn bit_not(self) -> (r: u8) {
        !self
    }

    fn shift_left(self, n: usize) -> (r: u8) {
        self << (n as u8)
    }

    fn shift_right(self, n: usize) -> (r: u8) {
        self >> (n as u8)
    }

    fn equals(self, rhs: u8) -> (r: bool) {
        self == rhs
    }
}

// What the operations on `u16` do to one bit, and the facts about bits
// that `lemma_bits_eq` is built from.
proof fn lemma_u16_bits(a: u16, b: u16, i: u16, n: u16)
    by (bit_vector)
    requires
        i < 16,
        n < 16,
    ensures
        ((a & b) >> i) & 1 == 1 <==> ((a >> i) & 1 == 1 && (b >> i) & 1 == 1),
        ((a | b) >> i) & 1 == 1 <==> ((a >> i) & 1 == 1 || (b >> i) & 1 == 1),
        ((a ^ b) >> i) & 1 == 1 <==> ((a >> i) & 1 == 1) != ((b >> i) & 1 == 1),
        ((!a) >> i) & 1 == 1 <==> (a >> i) & 1 != 1,
        ((a << n) >> i) & 1 == 1 <==> (n <= i && (a >> ((i - n) as u16)) & 1 == 1),
        ((a >> n) >> i) & 1 == 1 <==> (i + n < 16 && (a >> ((i + n) as u16)) & 1 == 1),
        (0u16 >> i) & 1 != 1,
        (1u16 >> i) & 1 == 1 <==> i == 0,
        a ^ b == 0 ==> a == b,
        (i == 15 || a >> ((i + 1) as u16) == 0) && (a >> i) & 1 != 1 ==> a >> i == 0,
{
}

/// Clearing bits from the top down: a value with no bit set is zero.
proof fn lemma_u16_high_zero(x: u16, k: u16)
    requires
        k < 16,
        forall|i: int| !(#[trigger] x.bit(i)),
    ensures
        x >> k == 0,
    decreases 16 - k,
{
    if k < 15 {
        lemma_u16_high_zero(x, (k + 1) as u16);
    }
    assert(!x.bit(k as int));
    lemma_u16_bits(x, x, k, 0);
}

impl Int for u16 {
    open spec fn width() -> nat {
        16
    }

    open spec fn bit(self, i: int) -> bool {
        0 <= i < 16 && (self >> (i as u16)) & 1 == 1
    }

    open spec fn and_spec(self, rhs: u16) -> u16 {
        self & rhs
    }

    open spec fn or_spec(self, rhs: u16) -> u16 {
        self | rhs
    }

    open spec fn not_spec(self) -> u16 {
        !self
    }

    open spec fn shl_spec(self, n: nat) -> u16 {
        self << (n as u16)
    }

    open spec fn shr_spec(self, n: nat) -> u16 {
        self >> (n as u16)
    }

    open spec fn zero_spec() -> u16 {
        0
    }

    open spec fn one_spec() -> u16 {
        1
    }

    proof fn lemma_bit_ops(a: u16, b: u16) {
        assert forall|i: int| #[trigger] a.and_spec(b).bit(i) == (a.bit(i) && b.bit(i)) by {
            if 0 <= i < 16 {
                lemma_u16_bits(a, b, i as u16, 0);
            }
        }
        assert forall|i: int| #[trigger] a.or_spec(b).bit(i) == (a.bit(i) || b.bit(i)) by {
            if 0 <= i < 16 {
                lemma_u16_bits(a, b, i as u16, 0);
            }
        }
        assert forall|i: int| #[trigger] a.not_spec().bit(i) == (0 <= i < 16 && !a.bit(i)) by {
            if 0 <= i < 16 {
                lemma_u16_bits(a, b, i as u16, 0);
            }
        }
        assert forall|i: int| !(#[trigger] Self::zero_spec().bit(i)) by {
            if 0 <= i < 16 {
                lemma_u16_bits(a, b, i as u16, 0);
            }
        }
        assert forall|i: int| #[trigger] Self::one_spec().bit(i) == (i == 0) by {
            if 0 <= i < 16 {
                lemma_u16_bits(a, b, i as u16, 0);
            }
        }
        assert forall|n: nat, i: int| n < 16 implies #[trigger] a.shl_spec(n).bit(i) == (n <= i
            < 16 && a.bit(i - n)) by {
            if 0 <= i < 16 {
                lemma_u16_bits(a, b, i as u16, n as u16);
            }
        }
        assert forall|n: nat, i: int| n < 16 implies #[trigger] a.shr_spec(n).bit(i) == (0 <= i
            && a.bit(i + n)) by {
            if 0 <= i < 16 {
                lemma_u16_bits(a, b, i as u16, n as u16);
            }
        }
    }

    proof fn lemma_bits_eq(a: u16, b: u16) {
        let x = a ^ b;
        assert forall|i: int| !(#[trigger] x.bit(i)) by {
            if 0 <= i < 16 {
                assert(a.bit(i) == b.bit(i));
                lemma_u16_bits(a, b, i as u16, 0);
            }
        }
        lemma_u16_high_zero(x, 0);
        lemma_u16_bits(a, b, 0, 0);
        assert(x >> 0u16 == x) by (bit_vector);
    }

    fn bit_width() -> (r: usize) {
        16
    }

    fn zero() -> (r: u16) {
        0
    }

    fn one() -> (r: u16) {
        1
    }

    fn bit_and(self, rhs: u16) -> (r: u16) {
        self & rhs
    }

    fn bit_or(self, rhs: u16) -> (r: u16) {
        self | rhs
    }

    fn bit_not(self) -> (r: u16) {
        !self
    }

    fn shift_left(self, n: usize) -> (r: u16) {
        self << (n as u16)
    }

    fn shift_right(self, n: usize) -> (r: u16) {
        self >> (n as u16)
    }

    fn equals(self, rhs: u16) -> (r: bool) {
        self == rhs
    }
}

// What the operations on `u32` do to one bit, and the facts about bits
// that `lemma_bits_eq` is built from.
proof fn lemma_u32_bits(a: u32, b: u32, i: u32, n: u32)
    by (bit_vector)
    requires
        i < 32,
        n < 32,
    ensures
        ((a & b) >> i) & 1 == 1 <==> ((a >> i) & 1 == 1 && (b >> i) & 1 == 1),
        ((a | b) >> i) & 1 == 1 <==> ((a >> i) & 1 == 1 || (b >> i) & 1 == 1),
        ((a ^ b) >> i) & 1 == 1 <==> ((a >> i) & 1 == 1) != ((b >> i) & 1 == 1),
        ((!a) >> i) & 1 == 1 <==> (a >> i) & 1 != 1,
        ((a << n) >> i) & 1 == 1 <==> (n <= i && (a >> ((i - n) as u32)) & 1 == 1),
        ((a >> n) >> i) & 1 == 1 <==> (i + n < 32 && (a >> ((i + n) as u32)) & 1 == 1),
        (0u32 >> i) & 1 != 1,
        (1u32 >> i) & 1 == 1 <==> i == 0,
        a ^ b == 0 ==> a == b,
        (i == 31 || a >> ((i + 1) as u32) == 0) && (a >> i) & 1 != 1 ==> a >> i == 0,
{
}

/// Clearing bits from the top down: a value with no bit set is zero.
proof fn lemma_u32_high_zero(x: u32, k: u32)
    requires
        k < 32,
        forall|i: int| !(#[trigger] x.bit(i)),
    ensures
        x >> k == 0,
    decreases 32 - k,
{
    if k < 31 {
        lemma_u32_high_zero(x, (k + 1) as u32);
    }
    assert(!x.bit(k as int));
    lemma_u32_bits(x, x, k, 0);
}

impl Int for u32 {
    open spec fn width() -> nat {
        32
    }

    open spec fn bit(self, i: int) -> bool {
        0 <= i < 32 && (self >> (i as u32)) & 1 == 1
    }

    open spec fn and_spec(self, rhs: u32) -> u32 {
        self & rhs
    }

    open spec fn or_spec(self, rhs: u32) -> u32 {
        self | rhs
    }

    open spec fn not_spec(self) -> u32 {
        !self
    }

    open spec fn shl_spec(self, n: nat) -> u32 {
        self << (n as u32)
    }

    open spec fn shr_spec(self, n: nat) -> u32 {
        self >> (n as u32)
    }

    open spec fn zero_spec() -> u32 {
        0
    }

    open spec fn one_spec() -> u32 {
        1
    }

    proof fn lemma_bit_ops(a: u32, b: u32) {
        assert forall|i: int| #[trigger] a.and_spec(b).bit(i) == (a.bit(i) && b.bit(i)) by {
            if 0 <= i < 32 {
                lemma_u32_bits(a, b, i as u32, 0);
            }
        }
        assert forall|i: int| #[trigger] a.or_spec(b).bit(i) == (a.bit(i) || b.bit(i)) by {
            if 0 <= i < 32 {
                lemma_u32_bits(a, b, i as u32, 0);
            }
        }
        assert forall|i: int| #[trigger] a.not_spec().bit(i) == (0 <= i < 32 && !a.bit(i)) by {
            if 0 <= i < 32 {
                lemma_u32_bits(a, b, i as u32, 0);
            }
        }
        assert forall|i: int| !(#[trigger] Self::zero_spec().bit(i)) by {
            if 0 <= i < 32 {
                lemma_u32_bits(a, b, i as u32, 0);
            }
        }
        assert forall|i: int| #[trigger] Self::one_spec().bit(i) == (i == 0) by {
            if 0 <= i < 32 {
                lemma_u32_bits(a, b, i as u32, 0);
            }
        }
        assert forall|n: nat, i: int| n < 32 implies #[trigger] a.shl_spec(n).bit(i) == (n <= i
            < 32 && a.bit(i - n)) by {
            if 0 <= i < 32 {
                lemma_u32_bits(a, b, i as u32, n as u32);
            }
        }
        assert forall|n: nat, i: int| n < 32 implies #[trigger] a.shr_spec(n).bit(i) == (0 <= i
            && a.bit(i + n)) by {
            if 0 <= i < 32 {
                lemma_u32_bits(a, b, i as u32, n as u32);
            }
        }
    }

    proof fn lemma_bits_eq(a: u32, b: u32) {
        let x = a ^ b;
        assert forall|i: int| !(#[trigger] x.bit(i)) by {
            if 0 <= i < 32 {
                assert(a.bit(i) == b.bit(i));
                lemma_u32_bits(a, b, i as u32, 0);
            }
        }
        lemma_u32_high_zero(x, 0);
        lemma_u32_bits(a, b, 0, 0);
        assert(x >> 0u32 == x) by (bit_vector);
    }

    fn bit_width() -> (r: usize) {
        32
    }

    fn zero() -> (r: u32) {
        0
    }

    fn one() -> (r: u32) {
        1
    }

    fn bit_and(self, rhs: u32) -> (r: u32) {
        self & rhs
    }

    fn bit_or(self, rhs: u32) -> (r: u32) {
        self | rhs
    }

    fn bit_not(self) -> (r: u32) {
        !self
    }

    fn shift_left(self, n: usize) -> (r: u32) {
        self << (n as u32)
    }

    fn shift_right(self, n: usize) -> (r: u32) {
        self >> (n as u32)
    }

    fn equals(self, rhs: u32) -> (r: bool) {
        self == rhs
    }
}

// What the operations on `usize` do to one bit, and the facts about bits
// that `lemma_bits_eq` is built from.
proof fn lemma_usize_bits(a: usize, b: usize, i: usize, n: usize)
    by (bit_vector)
    requires
        i < usize::BITS,
        n < usize::BITS,
    ensures
        ((a & b) >> i) & 1 == 1 <==> ((a >> i) & 1 == 1 && (b >> i) & 1 == 1),
        ((a | b) >> i) & 1 == 1 <==> ((a >> i) & 1 == 1 || (b >> i) & 1 == 1),
        ((a ^ b) >> i) & 1 == 1 <==> ((a >> i) & 1 == 1) != ((b >> i) & 1 == 1),
        ((!a) >> i) & 1 == 1 <==> (a >> i) & 1 != 1,
        ((a << n) >> i) & 1 == 1 <==> (n <= i && (a >> ((i - n) as usize)) & 1 == 1),
        ((a >> n) >> i) & 1 == 1 <==> (i + n < usize::BITS && (a >> ((i + n) as usize)) & 1 == 1),
        (0usize >> i) & 1 != 1,
        (1usize >> i) & 1 == 1 <==> i == 0,
        a ^ b == 0 ==> a == b,
        (i == usize::BITS - 1 || a >> ((i + 1) as usize) == 0) && (a >> i) & 1 != 1 ==> a >> i == 0,
{
}

/// Clearing bits from the top down: a value with no bit set is zero.
proof fn lemma_usize_high_zero(x: usize, k: usize)
    requires
        k < usize::BITS,
        forall|i: int| !(#[trigger] x.bit(i)),
    ensures
        x >> k == 0,
    decreases usize::BITS - k,
{
    if k < usize::BITS - 1 {
        lemma_usize_high_zero(x, (k + 1) as usize);
    }
    assert(!x.bit(k as int));
    lemma_usize_bits(x, x, k, 0);
}

impl Int for usize {
    open spec fn width() -> nat {
        usize::BITS as nat
    }

    open spec fn bit(self, i: int) -> bool {
        0 <= i < usize::BITS && (self >> (i as usize)) & 1 == 1
    }

    open spec fn and_spec(self, rhs: usize) -> usize {
        self & rhs
    }

    open spec fn or_spec(self, rhs: usize) -> usize {
        self | rhs
    }

    open spec fn not_spec(self) -> usize {
        !self
    }

    open spec fn shl_spec(self, n: nat) -> usize {
        self << (n as usize)
    }

    open spec fn shr_spec(self, n: nat) -> usize {
        self >> (n as usize)
    }

    open spec fn zero_spec() -> usize {
        0
    }

    open spec fn one_spec() -> usize {
        1
    }

    proof fn lemma_bit_ops(a: usize, b: usize) {
        assert forall|i: int| #[trigger] a.and_spec(b).bit(i) == (a.bit(i) && b.bit(i)) by {
            if 0 <= i < usize::BITS {
                lemma_usize_bits(a, b, i as usize, 0);
            }
        }
        assert forall|i: int| #[trigger] a.or_spec(b).bit(i) == (a.bit(i) || b.bit(i)) by {
            if 0 <= i < usize::BITS {
                lemma_usize_bits(a, b, i as usize, 0);
            }
        }
        assert forall|i: int| #[trigger] a.not_spec().bit(i) == (0 <= i < usize::BITS && !a.bit(i)) by {
            if 0 <= i < usize::BITS {
                lemma_usize_bits(a, b, i as usize, 0);
            }
        }
        assert forall|i: int| !(#[trigger] Self::zero_spec().bit(i)) by {
            if 0 <= i < usize::BITS {
                lemma_usize_bits(a, b, i as usize, 0);
            }
        }
        assert forall|i: int| #[trigger] Self::one_spec().bit(i) == (i == 0) by {
            if 0 <= i < usize::BITS {
                lemma_usize_bits(a, b, i as usize, 0);
            }
        }
        assert forall|n: nat, i: int| n < usize::BITS implies #[trigger] a.shl_spec(n).bit(i) == (n <= i
            < usize::BITS && a.bit(i - n)) by {
            if 0 <= i < usize::BITS {
                lemma_usize_bits(a, b, i as usize, n as usize);
            }
        }
        assert forall|n: nat, i: int| n < usize::BITS implies #[trigger] a.shr_spec(n).bit(i) == (0 <= i
            && a.bit(i + n)) by {
            if 0 <= i < usize::BITS {
                lemma_usize_bits(a, b, i as usize, n as usize);
            }
        }
    }

    proof fn lemma_bits_eq(a: usize, b: usize) {
        let x = a ^ b;
        assert forall|i: int| !(#[trigger] x.bit(i)) by {
            if 0 <= i < usize::BITS {
                assert(a.bit(i) == b.bit(i));
                lemma_usize_bits(a, b, i as usize, 0);
            }
        }
        lemma_usize_high_zero(x, 0);
        lemma_usize_bits(a, b, 0, 0);
        assert(x >> 0usize == x) by (bit_vector);
    }

    fn bit_width() -> (r: usize) {
        usize::BITS as usize
    }

    fn zero() -> (r: usize) {
        0
    }

    fn one() -> (r: usize) {
        1
    }

    fn bit_and(self, rhs: usize) -> (r: usize) {
        self & rhs
    }

    fn bit_or(self, rhs: usize) -> (r: usize) {
        self | rhs
    }

    fn bit_not(self) -> (r: usize) {
        !self
    }

    fn shift_left(self, n: usize) -> (r: usize) {
        self << (n as usize)
    }

    fn shift_right(self, n: usize) -> (r: usize) {
        self >> (n as usize)
    }

    fn equals(self, rhs: usize) -> (r: bool) {
        self == rhs
    }
}

} // verus!
