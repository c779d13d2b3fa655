use vstd::prelude::*;

use crate::num::Int;
use crate::perm::{Compatible, Permission};

verus! {

/// The bits of a register that one field covers, together with the
/// permission `P` of that field.
///
/// Fields combine with `|`; the permission of the result is the one that
/// `Compatible` gives, so that fields that share no capability cannot be
/// combined.
#[derive(Debug)]
pub struct Field<I, P> {
    mask: I,
    perm: core::marker::PhantomData<P>,
}

impl<I: Int, P> Field<I, P> {
    /// The bits that this field covers.
    pub closed spec fn spec_mask(&self) -> I {
        self.mask
    }

    /// Create a new `Field` that covers the given mask.
    pub fn new(mask: I) -> (r: Self)
        ensures
            r.spec_mask() == mask,
    {
        Field { mask, perm: core::marker::PhantomData }
    }

    /// The bits that this field covers.
    #[verifier::when_used_as_spec(spec_mask)]
    pub fn mask(&self) -> (r: I)
        ensures
            r == self.spec_mask(),
    {
        self.mask
    }
}

impl<I: Int, P: Permission> Field<I, P> {
    /// Return the bits of `val` that this field covers; all others are zero.
    pub fn read(self, val: I) -> (r: I)
        ensures
            r == val.and_spec(self.spec_mask()),
    {
        val.bit_and(self.mask)
    }

    /// Whether any bit of `val` that this field covers is set.
    pub fn any_set(self, val: I) -> (r: bool)
        ensures
            r == exists|i: int| #[trigger] val.bit(i) && self.spec_mask().bit(i),
    {
        let covered = val.bit_and(self.mask);
        let zero = I::zero();
        let r = !covered.equals(zero);
        proof {
            I::lemma_bit_ops(val, self.mask);
            I::lemma_bit_ops(zero, zero);
            if !exists|i: int| #[trigger] val.bit(i) && self.spec_mask().bit(i) {
                I::lemma_bits_eq(covered, zero);
            } else {
                let i = choose|i: int| #[trigger] val.bit(i) && self.spec_mask().bit(i);
                assert(covered.bit(i));
            }
        }
        r
    }
}

impl<I: Int, P> Clone for Field<I, P> {
    fn clone(&self) -> (r: Self)
        ensures
            r == *self,
    {
        *self
    }
}

impl<I: Int, P> Copy for Field<I, P> {

}

impl<I: Int, Lhs: Compatible<Lhs, Rhs> + Permission, Rhs: Permission> std::ops::BitOr<Field<I, Rhs>> for Field<I, Lhs> {
    type Output = Field<I, <Lhs as Compatible<Lhs, Rhs>>::Output>;

    /// The field that covers the bits of both.
    fn bitor(self, rhs: Field<I, Rhs>) -> (r: Self::Output)
        ensures
            r.spec_mask() == self.spec_mask().or_spec(rhs.spec_mask()),
    {
        Field { mask: self.mask.bit_or(rhs.mask), perm: core::marker::PhantomData }
    }
}

impl<I: Int, Lhs: Compatible<Lhs, Rhs> + Permission, Rhs: Permission> vstd::std_specs::ops::BitOrSpecImpl<Field<I, Rhs>> for Field<I, Lhs> {
    open spec fn obeys_bitor_spec() -> bool {
        true
    }

    open spec fn bitor_req(self, rhs: Field<I, Rhs>) -> bool {
        true
    }

    closed spec fn bitor_spec(self, rhs: Field<I, Rhs>) -> Field<
        I,
        <Lhs as Compatible<Lhs, Rhs>>::Output,
    > {
        Field { mask: self.mask.or_spec(rhs.mask), perm: core::marker::PhantomData }
    }
}

} // verus!
