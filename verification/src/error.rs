//! The ways in which an operation of this library can fail.

use vstd::prelude::*;

verus! {

/// Why an operation was refused or gave up.
#[derive(Clone, Copy, Debug, PartialEq, Eq, Structural)]
pub enum Error {
    /// A GPU resource could not be created.
    Allocation,
    /// A shader did not compile, or a program did not link.
    Compilation,
    /// The content lacks the data that the operation reads.
    MissingData,
    /// A buffer was addressed by a slot it does not have, or handed data
    /// of another length than the slot's.
    Buffer,
    /// The length of an attribute array is no multiple of its stride.
    MalformedLength,
    /// A draw was submitted and failed.
    Render,
}

} // verus!
