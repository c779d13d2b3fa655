//! Abstractions for MMIO regions.
use vstd::prelude::*;

use crate::num::Int;
use crate::register::{ReadAccess, WriteAccess};

verus! {

/// The volatile load and store of the machine for values of type `T`.
///
/// Each call is exactly one volatile memory operation at the address. An
/// implementation is where the address must be valid for `T`: non-zero,
/// aligned, and holding a valid bit pattern for `T`.
pub trait Volatile<T> {
    /// Read the `T` at `addr` with one volatile load.
    fn read_volatile(addr: VolAddr<T>) -> T;

    /// Write `val` to `addr` with one volatile store; what was stored there
    /// before is not dropped.
    fn write_volatile(addr: VolAddr<T>, val: T);
}

/// An address that can only be accessed by volatile reads and writes.
///
/// This does not synchronise anything: it only makes sure that each read
/// and write is one volatile operation.
///
/// The address must be valid for `T`, non-zero, aligned to `T`, and the
/// memory there must hold a valid bit pattern for `T`. Only the first two
/// words of this are something that this type can hold to: the address is
/// never zero. Addresses compare by their numeric value.
#[derive(Debug, Ord)]
pub struct VolAddr<T> {
    addr: usize,
    target: core::marker::PhantomData<T>,
}

impl<T> VolAddr<T> {
    #[verifier::type_invariant]
    closed spec fn inv(&self) -> bool {
        self.addr != 0
    }

    /// The numeric address.
    pub closed spec fn spec_addr(&self) -> usize {
        self.addr
    }

    /// The address that `offset(count)` moves to: `count` times the size
    /// of `T` further, wrapping around on overflow.
    pub open spec fn offset_spec(&self, count: isize) -> usize {
        self.spec_addr().wrapping_add(
            (count as usize).wrapping_mul(core::mem::size_of::<T>()),
        )
    }

    /// Create a new `VolAddr` at the given address.
    pub fn new(addr: usize) -> (r: Self)
        requires
            addr != 0,
        ensures
            r.spec_addr() == addr,
    {
        VolAddr { addr, target: core::marker::PhantomData }
    }

    /// The numeric address, which is never zero.
    #[verifier::when_used_as_spec(spec_addr)]
    pub fn addr(&self) -> (r: usize)
        ensures
            r == self.spec_addr(),
            r != 0,
    {
        proof {
            use_type_invariant(self);
        }
        self.addr
    }

    /// The same address, for a value of type `U`.
    pub fn cast<U>(self) -> (r: VolAddr<U>)
        ensures
            r.spec_addr() == self.spec_addr(),
    {
        proof {
            use_type_invariant(&self);
        }
        VolAddr { addr: self.addr, target: core::marker::PhantomData }
    }

    /// Offset this address by `count` values of `T`; the address wraps
    /// around on overflow.
    pub fn offset(self, count: isize) -> (r: Self)
        requires
            self.offset_spec(count) != 0,
        ensures
            r.spec_addr() == self.offset_spec(count),
    {
        let step = (count as usize).wrapping_mul(core::mem::size_of::<T>());
        VolAddr { addr: self.addr.wrapping_add(step), target: core::marker::PhantomData }
    }

    /// Performs a volatile read of this address, and returns a copy of the
    /// inner `T`.
    ///
    /// The `Copy` bound keeps the returned value from running code in a
    /// `Drop` implementation.
    pub fn read<M: Volatile<T>>(self) -> T where T: Copy {
        M::read_volatile(self)
    }

    /// Performs a volatile write to this address using the given value.
    ///
    /// The `Drop` implementation of the value stored before is never run.
    pub fn write<M: Volatile<T>>(self, val: T) {
        M::write_volatile(self, val);
    }
}

impl<T> Clone for VolAddr<T> {
    fn clone(&self) -> (r: Self)
        ensures
            r == *self,
    {
        *self
    }
}

impl<T> Copy for VolAddr<T> {

}

impl<T> PartialEq for VolAddr<T> {
    fn eq(&self, other: &Self) -> (r: bool) {
        self.addr == other.addr
    }
}

impl<T> vstd::std_specs::cmp::PartialEqSpecImpl for VolAddr<T> {
    open spec fn obeys_eq_spec() -> bool {
        true
    }

    open spec fn eq_spec(&self, other: &Self) -> bool {
        self.spec_addr() == other.spec_addr()
    }
}

impl<T> Eq for VolAddr<T> {

}

impl<T> PartialOrd for VolAddr<T> {
    fn partial_cmp(&self, other: &Self) -> (r: Option<core::cmp::Ordering>) {
        if self.addr < other.addr {
            Some(core::cmp::Ordering::Less)
        } else if self.addr > other.addr {
            Some(core::cmp::Ordering::Greater)
        } else {
            Some(core::cmp::Ordering::Equal)
        }
    }
}

impl<T> vstd::std_specs::cmp::PartialOrdSpecImpl for VolAddr<T> {
    open spec fn obeys_partial_cmp_spec() -> bool {
        true
    }

    open spec fn partial_cmp_spec(&self, other: &Self) -> Option<core::cmp::Ordering> {
        if self.spec_addr() < other.spec_addr() {
            Some(core::cmp::Ordering::Less)
        } else if self.spec_addr() > other.spec_addr() {
            Some(core::cmp::Ordering::Greater)
        } else {
            Some(core::cmp::Ordering::Equal)
        }
    }
}

/// A value of any type at an MMIO address, so that a device can hold plain
/// values beside its registers.
#[derive(Clone, Copy, Debug, PartialEq, Eq, PartialOrd, Ord)]
pub struct Lit<T>(VolAddr<T>);

impl<T> Lit<T> {
    /// The address of the value.
    pub closed spec fn spec_addr(&self) -> VolAddr<T> {
        self.0
    }

    /// Create a new `Lit` at the given address.
    pub fn new(addr: VolAddr<T>) -> (r: Self)
        ensures
            r.spec_addr() == addr,
    {
        Lit(addr)
    }

    /// The address of the value.
    #[verifier::when_used_as_spec(spec_addr)]
    pub fn addr(&self) -> (r: VolAddr<T>)
        ensures
            r == self.spec_addr(),
    {
        self.0
    }

    /// Performs a volatile read of this address, and returns a copy of the
    /// inner `T`.
    pub fn read<M: Volatile<T>>(self) -> T where T: Copy {
        self.0.read::<M>()
    }

    /// Performs a volatile write to this address using the given value.
    ///
    /// Note that the `Drop` implementation of `T` will never be run.
    pub fn write<M: Volatile<T>>(self, val: T) {
        self.0.write::<M>(val);
    }
}

/// An MMIO register of type `I` at an address, accessed through the volatile
/// operations of `M`.
pub struct Register<I, M> {
    addr: VolAddr<I>,
    memory: core::marker::PhantomData<M>,
}

impl<I, M> Register<I, M> {
    /// The address of the register.
    pub closed spec fn spec_addr(&self) -> VolAddr<I> {
        self.addr
    }

    /// The register at the given address.
    pub fn new(addr: VolAddr<I>) -> (r: Self)
        ensures
            r.spec_addr() == addr,
    {
        Register { addr, memory: core::marker::PhantomData }
    }
}

impl<I: Int, M: Volatile<I>> ReadAccess<I> for Register<I, M> {
    fn load(&self) -> I {
        self.addr.read::<M>()
    }
}

impl<I: Int, M: Volatile<I>> WriteAccess<I> for Register<I, M> {
    fn store(&self, val: I) {
        self.addr.write::<M>(val);
    }

    /// A read, then a write of the value with the bits of `mask` set.
    ///
    /// This is not atomic: a write to the register between the read and the
    /// write is lost.
    fn store_set(&self, mask: I) {
        let val = self.addr.read::<M>();
        self.addr.write::<M>(val.bit_or(mask));
    }

    /// A read, then a write of the value with the bits of `mask` cleared.
    ///
    /// This is not atomic: a write to the register between the read and the
    /// write is lost.
    fn store_clear(&self, mask: I) {
        let val = self.addr.read::<M>();
        self.addr.write::<M>(val.bit_and(mask.bit_not()));
    }
}

} // verus!
