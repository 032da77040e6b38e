//! The failures that the library reports.

use crate::host::{IoFailure, LockName};
use vstd::prelude::*;

verus! {

/// Why a unit of work on the GPU did not give a value.
#[derive(Debug, PartialEq, Eq)]
pub enum GPUError {
    /// A process of higher priority wants the GPU. The work that notices it
    /// reports this; a [`crate::LockedKernel`] answers by freeing its kernel
    /// and acquiring a new one, and never hands this error to its caller.
    GPUTaken,
    /// No kernel could be created.
    KernelUninitialized,
    /// The host has switched the use of the GPU off.
    GPUDisabled,
    /// Any other failure of the work itself, passed on as it came.
    Other(String),
}

/// The result of a unit of work on the GPU.
pub type GPUResult<T> = Result<T, GPUError>;

/// A fault of the host's file locks that ends the operation it occurred in.
#[derive(Clone, Copy, Debug, PartialEq, Eq)]
pub enum LockError {
    /// The file behind the lock could not be created.
    Create { name: LockName, failure: IoFailure },
    /// The request for the lock failed.
    Lock { name: LockName, failure: IoFailure },
    /// The lock could not be released.
    Unlock { name: LockName, failure: IoFailure },
}

} // verus!
