//! Traits for accessing CPU registers.
use vstd::prelude::*;

use crate::num::Int;
use crate::register::{ReadAccess, WriteAccess};

verus! {

/// Trait for reading from a CPU register.
///
/// It's recommended to implement this method as `#[inline]`.
pub trait RegisterRead<I: Int> {
    /// Read the raw value from this CPU register.
    fn read() -> I;
}

/// Trait for writing into a CPU register.
///
/// It's recommended to implement all of these methods as `#[inline]`.
pub trait RegisterWrite<I: Int> {
    /// Write the given value into this CPU register.
    fn write(val: I);

    /// Set all bits that are high in the mask to `1` inside this CPU
    /// register.
    ///
    /// Where the architecture has no bit set instruction, this can be
    /// implemented with `set_by_read_write`.
    fn set(mask: I);

    /// Set all bits that are high in the mask to `0` inside this CPU
    /// register.
    ///
    /// Where the architecture has no bit clear instruction, this can be
    /// implemented with `clear_by_read_write`.
    fn clear(mask: I);
}

/// `set` for registers without a bit set instruction: read the value, set
/// the bits of `mask` and write it back.
///
/// This is not atomic: a write to the register between the read and the
/// write is lost.
pub fn set_by_read_write<I: Int, R: RegisterRead<I> + RegisterWrite<I>>(mask: I) {
    R::write(R::read().bit_or(mask));
}

/// `clear` for registers without a bit clear instruction: read the value,
/// clear the bits of `mask` and write it back.
///
/// This is not atomic: a write to the register between the read and the
/// write is lost.
pub fn clear_by_read_write<I: Int, R: RegisterRead<I> + RegisterWrite<I>>(mask: I) {
    R::write(R::read().bit_and(mask.bit_not()));
}

/// The CPU register `R` as a register that fields can access.
pub struct Cpu<R> {
    register: core::marker::PhantomData<R>,
}

impl<R> Cpu<R> {
    /// Access to the CPU register `R`.
    pub fn new() -> Self {
        Cpu { register: core::marker::PhantomData }
    }
}

impl<I: Int, R: RegisterRead<I>> ReadAccess<I> for Cpu<R> {
    fn load(&self) -> I {
        R::read()
    }
}

impl<I: Int, R: RegisterWrite<I>> WriteAccess<I> for Cpu<R> {
    fn store(&self, val: I) {
        R::write(val);
    }

    fn store_set(&self, mask: I) {
        R::set(mask);
    }

    fn store_clear(&self, mask: I) {
        R::clear(mask);
    }
}

} // verus!
