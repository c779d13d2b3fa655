use vstd::prelude::*;

use crate::num::Int;

verus! {

/// `r` holds the bits `start..=end` of `num`, moved down to bit 0, and no
/// other bit.
pub open spec fn extracted<I: Int>(r: I, num: I, start: nat, end: nat) -> bool {
    forall|i: int| #[trigger] r.bit(i) == (0 <= i && i + start <= end && num.bit(i + start))
}

/// `r` is `num` with the bits `start..=end` replaced by the low bits of
/// `bits`: inside the range bit `i` comes from bit `i - start` of `bits`,
/// outside it every bit is the one of `num`.
pub open spec fn inserted<I: Int>(r: I, num: I, start: nat, end: nat, bits: I) -> bool {
    &&& forall|i: int| start <= i <= end ==> #[trigger] r.bit(i) == bits.bit(i - start)
    &&& forall|i: int| !(start <= i <= end) ==> #[trigger] r.bit(i) == num.bit(i)
}

/// `(start, end)` names an inclusive range of bits that exists in `I`.
pub open spec fn valid_range<I: Int>(range: (usize, usize)) -> bool {
    range.0 <= range.1 < I::width()
}

/// Obtain the bits in the inclusive range `(start, end)`, moved down to bit 0.
///
/// The range is not checked at run time: it is the caller's to keep valid.
pub fn get_bits<I: Int>(num: I, range: (usize, usize)) -> (r: I)
    requires
        valid_range::<I>(range),
    ensures
        extracted(r, num, range.0 as nat, range.1 as nat),
{
    let (start, end) = range;
    let bit_len = I::bit_width();
    // add one because the range is inclusive
    let end = end + 1;
    let high = num.shift_left(bit_len - end);
    let low = high.shift_right(bit_len - end);
    let r = low.shift_right(start);
    proof {
        I::lemma_bit_ops(num, num);
        I::lemma_bit_ops(high, high);
        I::lemma_bit_ops(low, low);
        I::lemma_bit_ops(r, r);
        assert forall|i: int| #[trigger] r.bit(i) == (0 <= i && i + start <= end - 1 && num.bit(
            i + start,
        )) by {
            if 0 <= i {
                assert(r.bit(i) == low.bit(i + start));
                assert(low.bit(i + start) == high.bit(i + start + (bit_len - end)));
            }
        }
    }
    r
}

/// Set the bits in the inclusive range `(start, end)` to the low bits of
/// `bits`, and keep all other bits of `num`.
///
/// The range is not checked at run time: it is the caller's to keep valid.
pub fn set_bits<I: Int>(num: I, range: (usize, usize), bits: I) -> (r: I)
    requires
        valid_range::<I>(range),
    ensures
        inserted(r, num, range.0 as nat, range.1 as nat, bits),
{
    let (start, end) = range;
    let bit_len = I::bit_width();
    // add one because the range is inclusive
    let end = end + 1;
    let ones = I::zero().bit_not();
    let upper = ones.shift_left(bit_len - end);
    let below_end = upper.shift_right(bit_len - end);
    let shifted = below_end.shift_right(start);
    let range_mask = shifted.shift_left(start);
    let mask = range_mask.bit_not();
    let moved = bits.shift_left(start);
    let kept = num.bit_and(mask);
    let inner = moved.bit_and(range_mask);
    let r = kept.bit_or(inner);
    proof {
        I::lemma_bit_ops(I::zero_spec(), I::zero_spec());
        I::lemma_bit_ops(ones, ones);
        I::lemma_bit_ops(upper, upper);
        I::lemma_bit_ops(below_end, below_end);
        I::lemma_bit_ops(shifted, shifted);
        I::lemma_bit_ops(range_mask, range_mask);
        I::lemma_bit_ops(bits, bits);
        I::lemma_bit_ops(num, mask);
        I::lemma_bit_ops(moved, range_mask);
        I::lemma_bit_ops(kept, inner);
        assert forall|i: int| #[trigger] range_mask.bit(i) == (start <= i < end) by {
            if start <= i {
                assert(range_mask.bit(i) == shifted.bit(i - start));
                assert(shifted.bit(i - start) == below_end.bit(i));
                assert(below_end.bit(i) == upper.bit(i + (bit_len - end)));
            }
        }
        assert forall|i: int| start <= i < end implies #[trigger] r.bit(i) == bits.bit(i - start)
            by {
            assert(moved.bit(i) == bits.bit(i - start));
        }
    }
    r
}


/// `m` has exactly the bits `start..=end` set.
pub open spec fn range_mask<I: Int>(m: I, start: nat, end: nat) -> bool {
    forall|i: int| #[trigger] m.bit(i) == (start <= i <= end)
}

/// Two values that both hold the same range of `num` are equal.
pub proof fn lemma_extracted_unique<I: Int>(a: I, b: I, num: I, start: nat, end: nat)
    requires
        extracted(a, num, start, end),
        extracted(b, num, start, end),
    ensures
        a == b,
{
    assert forall|i: int| 0 <= i < I::width() implies #[trigger] a.bit(i) == b.bit(i) by {
        assert(a.bit(i) == b.bit(i));
    }
    I::lemma_bits_eq(a, b);
}

/// Writing `bits` into a range and reading the range back gives `bits` cut
/// to the `end - start + 1` low bits.
pub proof fn lemma_set_get_round_trip<I: Int>(
    num: I,
    range: (usize, usize),
    bits: I,
    written: I,
    read: I,
)
    requires
        valid_range::<I>(range),
        inserted(written, num, range.0 as nat, range.1 as nat, bits),
        extracted(read, written, range.0 as nat, range.1 as nat),
    ensures
        forall|i: int| #[trigger] read.bit(i) == (0 <= i <= range.1 - range.0 && bits.bit(i)),
{
    assert forall|i: int| #[trigger] read.bit(i) == (0 <= i <= range.1 - range.0 && bits.bit(i))
        by {
        if 0 <= i <= range.1 - range.0 {
            assert(written.bit(i + range.0) == bits.bit(i));
        }
    }
}

/// The mask of the bits `start..=end`.
pub fn mask_of_range<I: Int>(range: (usize, usize)) -> (r: I)
    requires
        valid_range::<I>(range),
    ensures
        range_mask(r, range.0 as nat, range.1 as nat),
{
    let zero = I::zero();
    let ones = zero.bit_not();
    proof {
        I::lemma_bit_ops(zero, zero);
        I::lemma_bit_ops(ones, ones);
    }
    set_bits(zero, range, ones)
}

} // verus!
