//! The host's advisory file locks, as the library sees them: what it asks of
//! them and what they answer.

use crate::error::LockError;
use vstd::prelude::*;

verus! {

/// The two locks that every process of the host shares.
#[derive(Clone, Copy, Debug, PartialEq, Eq)]
pub enum LockName {
    /// Held by the process that owns the GPU.
    Gpu,
    /// Held by the process that asks for the GPU with priority.
    Priority,
}

impl LockName {
    /// The name of the file behind the lock, inside the host's directory for
    /// temporary files.
    pub open spec fn spec_file_name(self) -> Seq<char> {
        match self {
            LockName::Gpu => "bellman.gpu.lock"@,
            LockName::Priority => "bellman.priority.lock"@,
        }
    }

    /// The name of the file behind the lock. Processes that use the same file
    /// take part in the same arbitration.
    pub fn file_name(&self) -> (name: &'static str)
        ensures
            name@ == self.spec_file_name(),
    {
        match self {
            LockName::Gpu => "bellman.gpu.lock",
            LockName::Priority => "bellman.priority.lock",
        }
    }
}

/// How a lock is shared between its holders.
#[derive(Clone, Copy, Debug, PartialEq, Eq)]
pub enum LockMode {
    /// At most one holder, and no shared holder beside it.
    Exclusive,
    /// Any number of shared holders, and no exclusive holder beside them.
    Shared,
}

/// One request to the host: create the file of `name` if it is absent, open
/// it, and ask for its lock.
#[derive(Clone, Copy, Debug, PartialEq, Eq)]
pub struct LockRequest {
    pub name: LockName,
    pub mode: LockMode,
    /// Whether the request waits until the lock can be granted. One that does
    /// not wait fails at once on a lock that another process holds in a mode
    /// that excludes `mode`.
    pub blocking: bool,
    /// Whether the lock is kept once granted. One that is not kept is
    /// released as soon as it has been granted.
    pub retain: bool,
}

/// What the library reads of an input or output error of the host.
#[derive(Clone, Copy, Debug, PartialEq, Eq)]
pub struct IoFailure {
    /// The raw code of the operating system, where the error has one.
    pub os_code: Option<i32>,
}

/// The host's answer to a [`LockRequest`].
#[derive(Clone, Copy, Debug, PartialEq, Eq)]
pub enum LockReply {
    /// The lock was granted.
    Acquired,
    /// The file behind the lock could not be created.
    CreateFailed(IoFailure),
    /// The file is there and the request for its lock failed.
    LockFailed(IoFailure),
}

/// The raw code of the error with which a request that does not wait fails
/// on a lock that is held: that of `fs2::lock_contended_error()`. `fs2` makes
/// that error from a raw code, so it always has one; which one differs from
/// platform to platform.
#[verifier::external_body]
pub(crate) fn contended_os_code() -> (code: Option<i32>)
    ensures
        code is Some,
{
    fs2::lock_contended_error().raw_os_error()
}

impl LockReply {
    /// The fault, if any, that the reply is to a request for `name` that must
    /// be granted.
    pub open spec fn spec_fault(self, name: LockName) -> Option<LockError> {
        match self {
            LockReply::Acquired => None,
            LockReply::CreateFailed(failure) => Some(LockError::Create { name, failure }),
            LockReply::LockFailed(failure) => Some(LockError::Lock { name, failure }),
        }
    }
}

} // verus!
