use vstd::prelude::*;

verus! {

/// Closes the library's traits to types outside this crate.
pub trait Sealed {}

impl Sealed for u8 {}

impl Sealed for u16 {}

impl Sealed for u32 {}

impl Sealed for u64 {}

impl Sealed for usize {}

} // verus!
