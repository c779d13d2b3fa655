use vstd::prelude::*;

use crate::num::Int;

verus! {

/// A partial write of a register: the bits under `mask` get the values of
/// `bits`, all other bits keep theirs.
///
/// Several values can be combined with `|` so that they are written in one
/// operation.
#[derive(Copy, Debug)]
pub struct Value<I: Int> {
    mask: I,
    bits: I,
}

impl<I: Int> Value<I> {
    /// The bits that this value writes.
    pub closed spec fn spec_mask(&self) -> I {
        self.mask
    }

    /// What this value writes under its mask.
    pub closed spec fn spec_bits(&self) -> I {
        self.bits
    }

    /// No bit is set outside the mask.
    pub open spec fn wf(&self) -> bool {
        self.spec_bits().and_spec(self.spec_mask()) == self.spec_bits()
    }

    #[verifier::type_invariant]
    closed spec fn inv(&self) -> bool {
        self.wf()
    }

    /// What `modify` returns for the register value `val`.
    pub open spec fn modify_spec(&self, val: I) -> I {
        val.and_spec(self.spec_mask().not_spec()).or_spec(self.spec_bits())
    }

    /// Create a new `Value` with the given mask and bits; bits outside the
    /// mask are dropped.
    pub fn new(mask: I, bits: I) -> (r: Self)
        ensures
            r.spec_mask() == mask,
            r.spec_bits() == bits.and_spec(mask),
    {
        let masked = bits.bit_and(mask);
        proof {
            I::lemma_bit_ops(bits, mask);
            I::lemma_bit_ops(masked, mask);
            I::lemma_bits_eq(masked.and_spec(mask), masked);
        }
        Value { mask, bits: masked }
    }

    /// The bits that this value writes.
    #[verifier::when_used_as_spec(spec_mask)]
    pub fn mask(&self) -> (r: I)
        ensures
            r == self.spec_mask(),
    {
        self.mask
    }

    /// What this value writes under its mask.
    #[verifier::when_used_as_spec(spec_bits)]
    pub fn bits(&self) -> (r: I)
        ensures
            r == self.spec_bits(),
    {
        self.bits
    }

    /// Modify all bits that are under the mask of this value in `val` and
    /// return the result; the other bits of `val` are kept.
    pub fn modify(self, val: I) -> (r: I)
        ensures
            r == self.modify_spec(val),
    {
        val.bit_and(self.mask.bit_not()).bit_or(self.bits)
    }
}

impl<I: Int> Clone for Value<I> {
    fn clone(&self) -> (r: Self)
        ensures
            r == *self,
    {
        *self
    }
}

impl<I: Int> std::ops::BitOr<Value<I>> for Value<I> {
    type Output = Value<I>;

    /// Both values in one: the union of the masks and of the bits.
    fn bitor(self, rhs: Value<I>) -> (r: Value<I>)
        ensures
            r.spec_mask() == self.spec_mask().or_spec(rhs.spec_mask()),
            r.spec_bits() == self.spec_bits().or_spec(rhs.spec_bits()),
    {
        proof {
            use_type_invariant(&self);
            use_type_invariant(&rhs);
        }
        let mask = self.mask.bit_or(rhs.mask);
        let bits = self.bits.bit_or(rhs.bits);
        proof {
            I::lemma_bit_ops(self.bits, self.mask);
            I::lemma_bit_ops(rhs.bits, rhs.mask);
            I::lemma_bit_ops(self.mask, rhs.mask);
            I::lemma_bit_ops(self.bits, rhs.bits);
            I::lemma_bit_ops(bits, mask);
            I::lemma_bits_eq(bits.and_spec(mask), bits);
        }
        Value { mask, bits }
    }
}

impl<I: Int> vstd::std_specs::ops::BitOrSpecImpl<Value<I>> for Value<I> {
    open spec fn obeys_bitor_spec() -> bool {
        true
    }

    open spec fn bitor_req(self, rhs: Value<I>) -> bool {
        true
    }

    closed spec fn bitor_spec(self, rhs: Value<I>) -> Value<I> {
        Value { mask: self.mask.or_spec(rhs.mask), bits: self.bits.or_spec(rhs.bits) }
    }
}

/// A value built by `new` writes `bits & mask` and leaves the rest of the
/// register alone: applied to `original` it gives
/// `(original & !mask) | (bits & mask)`.
pub proof fn lemma_new_modify<I: Int>(v: Value<I>, mask: I, bits: I, original: I)
    requires
        v.spec_mask() == mask,
        v.spec_bits() == bits.and_spec(mask),
    ensures
        v.modify_spec(original) == original.and_spec(mask.not_spec()).or_spec(bits.and_spec(mask)),
{
}

/// Applying the same value twice gives what applying it once gives.
pub proof fn lemma_modify_idempotent<I: Int>(v: Value<I>, original: I)
    requires
        v.wf(),
    ensures
        v.modify_spec(v.modify_spec(original)) == v.modify_spec(original),
{
    let m = v.spec_mask();
    let b = v.spec_bits();
    let once = v.modify_spec(original);
    let twice = v.modify_spec(once);
    I::lemma_bit_ops(b, m);
    I::lemma_bit_ops(m, m);
    I::lemma_bit_ops(original, m.not_spec());
    I::lemma_bit_ops(original.and_spec(m.not_spec()), b);
    I::lemma_bit_ops(once, m.not_spec());
    I::lemma_bit_ops(once.and_spec(m.not_spec()), b);
    assert forall|i: int| 0 <= i < I::width() implies #[trigger] twice.bit(i) == once.bit(i) by {
        assert(b.bit(i) ==> m.bit(i));
    }
    I::lemma_bits_eq(twice, once);
}

} // verus!
