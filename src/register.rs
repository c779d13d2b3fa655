//! Field descriptors that give typed access to the bits of a register.
//!
//! A register is anything that can load and store its raw value
//! (`ReadAccess`, `WriteAccess`); a field describes which bits of it mean
//! what. Each field computes its reading from a raw value and the raw value
//! that a write leaves, and its `get` and `set` run those computations
//! against a register.
use vstd::prelude::*;

use crate::bits::{
    extracted, get_bits, inserted, lemma_extracted_unique, mask_of_range, range_mask, set_bits,
    valid_range,
};
use crate::field::Field;
use crate::num::Int;
use crate::perm::{Readable, Writable};
use crate::value::Value;

verus! {

/// Loading the raw value of one register.
pub trait ReadAccess<I: Int> {
    /// The current raw value of the register.
    fn load(&self) -> I;
}

/// Storing the raw value of one register.
pub trait WriteAccess<I: Int> {
    /// Store a raw value into the register.
    fn store(&self, val: I);

    /// Set to one the bits of the register that are one in `mask`.
    ///
    /// Where this is a read followed by a write it is not atomic.
    fn store_set(&self, mask: I);

    /// Set to zero the bits of the register that are one in `mask`.
    ///
    /// Where this is a read followed by a write it is not atomic.
    fn store_clear(&self, mask: I);
}

/// The value that writes `pattern` into the bits `range` and nothing else.
fn range_value<I: Int>(range: (usize, usize), pattern: I) -> (r: Value<I>)
    requires
        valid_range::<I>(range),
    ensures
        range_mask(r.spec_mask(), range.0 as nat, range.1 as nat),
        forall|i: int| #[trigger]
            r.spec_bits().bit(i) == (range.0 <= i <= range.1 && pattern.bit(i - range.0)),
{
    let mask = mask_of_range(range);
    let moved = pattern.shift_left(range.0);
    let r = Value::new(mask, moved);
    proof {
        I::lemma_bit_ops(pattern, pattern);
        I::lemma_bit_ops(moved, mask);
    }
    r
}

/// A field of a single bit.
pub struct BitField<I: Int, P> {
    bit: usize,
    marker: core::marker::PhantomData<(I, P)>,
}

impl<I: Int, P> BitField<I, P> {
    #[verifier::type_invariant]
    closed spec fn inv(&self) -> bool {
        self.bit < I::width()
    }

    /// The position of the bit.
    pub closed spec fn spec_bit(&self) -> usize {
        self.bit
    }

    /// The field of bit `bit`.
    pub fn new(bit: usize) -> (r: Self)
        requires
            bit < I::width(),
        ensures
            r.spec_bit() == bit,
    {
        BitField { bit, marker: core::marker::PhantomData }
    }

    /// The position of the bit.
    #[verifier::when_used_as_spec(spec_bit)]
    pub fn bit(&self) -> (r: usize)
        ensures
            r == self.spec_bit(),
    {
        self.bit
    }

    /// The mask with only this bit set.
    fn mask(&self) -> (r: I)
        ensures
            forall|i: int| #[trigger] r.bit(i) == (i == self.spec_bit()),
    {
        proof {
            use_type_invariant(self);
        }
        let one = I::one();
        let r = one.shift_left(self.bit);
        proof {
            I::lemma_bit_ops(one, one);
        }
        r
    }

    /// The `Field` that covers this bit.
    pub fn field(&self) -> (r: Field<I, P>)
        ensures
            forall|i: int| #[trigger] r.spec_mask().bit(i) == (i == self.spec_bit()),
    {
        Field::new(self.mask())
    }
}

impl<I: Int, P: Readable> BitField<I, P> {
    /// Whether the bit is set in the raw value `raw`.
    pub fn extract(&self, raw: I) -> (r: bool)
        ensures
            r == raw.bit(self.spec_bit() as int),
    {
        let mask = self.mask();
        let covered = raw.bit_and(mask);
        let zero = I::zero();
        let r = !covered.equals(zero);
        proof {
            I::lemma_bit_ops(raw, mask);
            I::lemma_bit_ops(zero, zero);
            if !raw.bit(self.spec_bit() as int) {
                I::lemma_bits_eq(covered, zero);
            } else {
                assert(covered.bit(self.spec_bit() as int));
            }
        }
        r
    }

    /// Whether the bit is set in the register.
    pub fn get<A: ReadAccess<I>>(&self, reg: &A) -> bool {
        self.extract(reg.load())
    }
}

impl<I: Int, P: Writable> BitField<I, P> {
    /// The `Value` that sets the bit to `x` when it modifies a register.
    pub fn value(&self, x: bool) -> (r: Value<I>)
        ensures
            forall|i: int| #[trigger] r.spec_mask().bit(i) == (i == self.spec_bit()),
            forall|i: int| #[trigger] r.spec_bits().bit(i) == (x && i == self.spec_bit()),
    {
        let mask = self.mask();
        let bits = if x {
            mask
        } else {
            I::zero()
        };
        let r = Value::new(mask, bits);
        proof {
            I::lemma_bit_ops(bits, mask);
            I::lemma_bit_ops(mask, mask);
        }
        r
    }

    /// Set the bit in the register to `x`.
    pub fn set<A: WriteAccess<I>>(&self, reg: &A, x: bool) {
        let mask = self.mask();
        if x {
            reg.store_set(mask);
        } else {
            reg.store_clear(mask);
        }
    }
}

/// A field over a range of bits whose patterns name the variants of an
/// enumeration: variant `k` is written as `variants[k]`.
pub struct EnumField<I: Int, P> {
    start: usize,
    end: usize,
    variants: Vec<I>,
    perm: core::marker::PhantomData<P>,
}

impl<I: Int, P> EnumField<I, P> {
    #[verifier::type_invariant]
    closed spec fn inv(&self) -> bool {
        valid_range::<I>((self.start, self.end))
    }

    /// The inclusive range of bits of the field.
    pub closed spec fn spec_range(&self) -> (usize, usize) {
        (self.start, self.end)
    }

    /// The bit pattern of each variant.
    pub closed spec fn spec_variants(&self) -> Seq<I> {
        self.variants@
    }

    /// The bits of the field in `raw` are `pattern`.
    pub open spec fn reads_as(&self, raw: I, pattern: I) -> bool {
        extracted(pattern, raw, self.spec_range().0 as nat, self.spec_range().1 as nat)
    }

    /// The field over the inclusive `range` with the given variant patterns.
    pub fn new(range: (usize, usize), variants: Vec<I>) -> (r: Self)
        requires
            valid_range::<I>(range),
        ensures
            r.spec_range() == range,
            r.spec_variants() == variants@,
    {
        EnumField { start: range.0, end: range.1, variants, perm: core::marker::PhantomData }
    }

    /// The `Field` that covers the range.
    pub fn field(&self) -> (r: Field<I, P>)
        ensures
            range_mask(r.spec_mask(), self.spec_range().0 as nat, self.spec_range().1 as nat),
    {
        proof {
            use_type_invariant(self);
        }
        Field::new(mask_of_range((self.start, self.end)))
    }
}

impl<I: Int, P: Readable> EnumField<I, P> {
    /// The first variant whose pattern the field holds in `raw`, or `None`
    /// where the bits match no variant.
    pub fn decode(&self, raw: I) -> (r: Option<usize>)
        ensures
            match r {
                Some(k) => {
                    &&& k < self.spec_variants().len()
                    &&& self.reads_as(raw, self.spec_variants()[k as int])
                    &&& forall|j: int|
                        0 <= j < k ==> !self.reads_as(raw, #[trigger] self.spec_variants()[j])
                },
                None => forall|j: int|
                    0 <= j < self.spec_variants().len() ==> !self.reads_as(
                        raw,
                        #[trigger] self.spec_variants()[j],
                    ),
            },
    {
        proof {
            use_type_invariant(self);
        }
        let current = get_bits(raw, (self.start, self.end));
        let mut k: usize = 0;
        while k < self.variants.len()
            invariant
                k <= self.variants@.len(),
                self.reads_as(raw, current),
                forall|j: int| 0 <= j < k ==> !self.reads_as(raw, #[trigger] self.variants@[j]),
            decreases self.variants@.len() - k,
        {
            let pattern = self.variants[k];
            if pattern.equals(current) {
                return Some(k);
            }
            proof {
                if self.reads_as(raw, pattern) {
                    lemma_extracted_unique(
                        pattern,
                        current,
                        raw,
                        self.start as nat,
                        self.end as nat,
                    );
                }
            }
            k = k + 1;
        }
        None
    }

    /// The variant that the register holds, or `None` where its bits match
    /// no variant.
    pub fn get<A: ReadAccess<I>>(&self, reg: &A) -> (r: Option<usize>)
        ensures
            r matches Some(k) ==> k < self.spec_variants().len(),
    {
        self.decode(reg.load())
    }
}

impl<I: Int, P: Writable> EnumField<I, P> {
    /// `raw` with the field set to variant `variant`.
    pub fn encode(&self, raw: I, variant: usize) -> (r: I)
        requires
            variant < self.spec_variants().len(),
        ensures
            inserted(
                r,
                raw,
                self.spec_range().0 as nat,
                self.spec_range().1 as nat,
                self.spec_variants()[variant as int],
            ),
    {
        proof {
            use_type_invariant(self);
        }
        set_bits(raw, (self.start, self.end), self.variants[variant])
    }

    /// The `Value` that sets the field to variant `variant`.
    pub fn value(&self, variant: usize) -> (r: Value<I>)
        requires
            variant < self.spec_variants().len(),
        ensures
            range_mask(r.spec_mask(), self.spec_range().0 as nat, self.spec_range().1 as nat),
            forall|i: int| #[trigger]
                r.spec_bits().bit(i) == (self.spec_range().0 <= i <= self.spec_range().1
                    && self.spec_variants()[variant as int].bit(i - self.spec_range().0)),
    {
        proof {
            use_type_invariant(self);
        }
        range_value((self.start, self.end), self.variants[variant])
    }

    /// Set the field of the register to variant `variant`.
    pub fn set<A: ReadAccess<I> + WriteAccess<I>>(&self, reg: &A, variant: usize)
        requires
            variant < self.spec_variants().len(),
    {
        let raw = reg.load();
        reg.store(self.encode(raw, variant));
    }
}

/// A field over a range of bits that holds a set of flags; `declared` has
/// the bits of the declared flags, counted from the start of the range.
pub struct FlagsField<I: Int, P> {
    start: usize,
    end: usize,
    declared: I,
    perm: core::marker::PhantomData<P>,
}

impl<I: Int, P> FlagsField<I, P> {
    #[verifier::type_invariant]
    closed spec fn inv(&self) -> bool {
        valid_range::<I>((self.start, self.end))
    }

    /// The inclusive range of bits of the field.
    pub closed spec fn spec_range(&self) -> (usize, usize) {
        (self.start, self.end)
    }

    /// The bits of the declared flags.
    pub closed spec fn spec_declared(&self) -> I {
        self.declared
    }

    /// The field over the inclusive `range` with the flags of `declared`.
    pub fn new(range: (usize, usize), declared: I) -> (r: Self)
        requires
            valid_range::<I>(range),
        ensures
            r.spec_range() == range,
            r.spec_declared() == declared,
    {
        FlagsField { start: range.0, end: range.1, declared, perm: core::marker::PhantomData }
    }

    /// The `Field` that covers the range.
    pub fn field(&self) -> (r: Field<I, P>)
        ensures
            range_mask(r.spec_mask(), self.spec_range().0 as nat, self.spec_range().1 as nat),
    {
        proof {
            use_type_invariant(self);
        }
        Field::new(mask_of_range((self.start, self.end)))
    }
}

impl<I: Int, P: Readable> FlagsField<I, P> {
    /// The declared flags that are set in `raw`; bits that name no declared
    /// flag are dropped.
    pub fn decode(&self, raw: I) -> (r: I)
        ensures
            forall|i: int| #[trigger]
                r.bit(i) == (0 <= i && i + self.spec_range().0 <= self.spec_range().1 && raw.bit(
                    i + self.spec_range().0,
                ) && self.spec_declared().bit(i)),
    {
        proof {
            use_type_invariant(self);
        }
        let bits = get_bits(raw, (self.start, self.end));
        let r = bits.bit_and(self.declared);
        proof {
            I::lemma_bit_ops(bits, self.declared);
        }
        r
    }

    /// The declared flags that are set in the register.
    pub fn get<A: ReadAccess<I>>(&self, reg: &A) -> (r: I)
        ensures
            forall|i: int| #[trigger]
                r.bit(i) ==> 0 <= i && i + self.spec_range().0 <= self.spec_range().1
                    && self.spec_declared().bit(i),
    {
        self.decode(reg.load())
    }
}

impl<I: Int, P: Writable> FlagsField<I, P> {
    /// `raw` with the field set to the declared flags of `flags`.
    pub fn encode(&self, raw: I, flags: I) -> (r: I)
        ensures
            inserted(
                r,
                raw,
                self.spec_range().0 as nat,
                self.spec_range().1 as nat,
                flags.and_spec(self.spec_declared()),
            ),
    {
        proof {
            use_type_invariant(self);
        }
        set_bits(raw, (self.start, self.end), flags.bit_and(self.declared))
    }

    /// The `Value` that sets the field to the declared flags of `flags`.
    pub fn value(&self, flags: I) -> (r: Value<I>)
        ensures
            range_mask(r.spec_mask(), self.spec_range().0 as nat, self.spec_range().1 as nat),
            forall|i: int| #[trigger]
                r.spec_bits().bit(i) == (self.spec_range().0 <= i <= self.spec_range().1
                    && flags.and_spec(self.spec_declared()).bit(i - self.spec_range().0)),
    {
        proof {
            use_type_invariant(self);
        }
        range_value((self.start, self.end), flags.bit_and(self.declared))
    }

    /// Set the field of the register to the declared flags of `flags`.
    pub fn set<A: ReadAccess<I> + WriteAccess<I>>(&self, reg: &A, flags: I) {
        let raw = reg.load();
        reg.store(self.encode(raw, flags));
    }
}

/// Read the bits of the register that `field` covers.
pub fn read<I: Int, P: Readable, A: ReadAccess<I>>(reg: &A, field: Field<I, P>) -> (r: I)
    ensures
        forall|i: int| #[trigger] r.bit(i) ==> field.spec_mask().bit(i),
{
    let raw = reg.load();
    let r = field.read(raw);
    proof {
        I::lemma_bit_ops(raw, field.spec_mask());
    }
    r
}

/// Whether any bit of the register that `field` covers is set.
pub fn is_set<I: Int, P: Readable, A: ReadAccess<I>>(reg: &A, field: Field<I, P>) -> bool {
    field.any_set(reg.load())
}

/// Write `value` into the register and set all other bits to zero.
pub fn write<I: Int, A: WriteAccess<I>>(reg: &A, value: Value<I>) {
    reg.store(value.modify(I::zero()));
}

/// Modify the register as `value` says and keep all other bits.
pub fn modify<I: Int, A: ReadAccess<I> + WriteAccess<I>>(reg: &A, value: Value<I>) {
    let raw = reg.load();
    reg.store(value.modify(raw));
}

} // verus!
