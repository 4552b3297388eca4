//! The ways in which preparing or running a kernel can fail.

use vstd::prelude::*;

verus! {

/// Why a kernel call was refused or did not complete.
#[derive(Clone, Copy, Debug, PartialEq, Eq, Hash, Structural)]
pub enum KernelError {
    /// A name that the kernel's declaration does not hold.
    UnknownBinding,
    /// An element type or a parameter kind other than the declared one.
    TypeMismatch,
    /// An access other than the declared one, a tensor that reaches outside
    /// its buffer, or two bindings that overlap while one of them is written.
    AccessViolation,
    /// The result tensor could not be laid out in the buffer it was given.
    AllocationFailure,
    /// The runtime reported that the kernel did not run to completion.
    DispatchFailure,
}

} // verus!
