//! Marker types and traits that give fields a read and write permission.
use vstd::prelude::*;

use crate::sealed::Sealed;

verus! {

/// A permission: which of reading and writing a field allows.
///
/// Permissions are types only; no value of them ever exists.
pub trait Permission: Sealed {
    /// Whether the permission allows reading.
    spec fn can_read() -> bool;

    /// Whether the permission allows writing.
    spec fn can_write() -> bool;

    /// Every permission allows something.
    proof fn lemma_allows_something()
        ensures
            Self::can_read() || Self::can_write(),
    ;
}

/// A permission that allows reading.
pub trait Readable: Permission {
    /// A readable permission allows reading.
    proof fn lemma_readable()
        ensures
            Self::can_read(),
    ;
}

/// A permission that allows writing.
pub trait Writable: Permission {
    /// A writable permission allows writing.
    proof fn lemma_writable()
        ensures
            Self::can_write(),
    ;
}

// The private unit field keeps other crates from making a value of a
// permission: they are used as types only, and take no space.
/// The permission of a field that can be read but not written.
pub struct ReadOnly(());

/// The permission of a field that can be written but not read.
pub struct WriteOnly(());

/// The permission of a field that can be read and written.
pub struct ReadWrite(());

/// The permission that two combined fields get: `Lhs` combined with `Rhs`
/// gives `Output`.
///
/// Only the combinations that keep at least one capability are implemented,
/// so combining a read-only with a write-only field does not compile.
pub trait Compatible<Lhs: Permission, Rhs: Permission>: Sealed {
    /// The permission of the combined field.
    type Output: Permission;

    /// The combined field allows exactly what both fields allow.
    proof fn lemma_output()
        ensures
            Self::Output::can_read() == (Lhs::can_read() && Rhs::can_read()),
            Self::Output::can_write() == (Lhs::can_write() && Rhs::can_write()),
    ;
}

impl Sealed for ReadOnly {}

impl Sealed for WriteOnly {}

impl Sealed for ReadWrite {}

impl Permission for ReadOnly {
    proof fn lemma_allows_something() {
    }

    open spec fn can_read() -> bool {
        true
    }

    open spec fn can_write() -> bool {
        false
    }
}

impl Permission for WriteOnly {
    proof fn lemma_allows_something() {
    }

    open spec fn can_read() -> bool {
        false
    }

    open spec fn can_write() -> bool {
        true
    }
}

impl Permission for ReadWrite {
    proof fn lemma_allows_something() {
    }

    open spec fn can_read() -> bool {
        true
    }

    open spec fn can_write() -> bool {
        true
    }
}

impl Readable for ReadOnly {
    proof fn lemma_readable() {
    }
}

impl Readable for ReadWrite {
    proof fn lemma_readable() {
    }
}

impl Writable for WriteOnly {
    proof fn lemma_writable() {
    }
}

impl Writable for ReadWrite {
    proof fn lemma_writable() {
    }
}

impl<P: Readable> Compatible<ReadOnly, P> for ReadOnly {
    type Output = ReadOnly;

    proof fn lemma_output() {
        P::lemma_readable();
    }
}

impl<P: Writable> Compatible<WriteOnly, P> for WriteOnly {
    type Output = WriteOnly;

    proof fn lemma_output() {
        P::lemma_writable();
    }
}

impl<P: Permission> Compatible<ReadWrite, P> for ReadWrite {
    type Output = P;

    proof fn lemma_output() {
    }
}

/// Combining two permissions keeps exactly the capabilities that both have.
pub proof fn lemma_combined_permission<Lhs: Compatible<Lhs, Rhs> + Permission, Rhs: Permission>()
    ensures
        <Lhs as Compatible<Lhs, Rhs>>::Output::can_read() == (Lhs::can_read() && Rhs::can_read()),
        <Lhs as Compatible<Lhs, Rhs>>::Output::can_write() == (Lhs::can_write() && Rhs::can_write()),
{
    <Lhs as Compatible<Lhs, Rhs>>::lemma_output();
}

/// Only permissions that share a capability can be combined: there is no
/// combination of a read-only with a write-only permission.
pub proof fn lemma_combinable_share_capability<
    Lhs: Compatible<Lhs, Rhs> + Permission,
    Rhs: Permission,
>()
    ensures
        (Lhs::can_read() && Rhs::can_read()) || (Lhs::can_write() && Rhs::can_write()),
{
    <Lhs as Compatible<Lhs, Rhs>>::lemma_output();
    <Lhs as Compatible<Lhs, Rhs>>::Output::lemma_allows_something();
}

} // verus!
