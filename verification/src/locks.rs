//! The lock of the GPU's owner and the flag of the priority process.
//!
//! Each operation comes in two parts: the request that the caller puts to the
//! host, and the function that reads the host's reply. The functions that
//! read a reply return the faults that end the operation as errors; a caller
//! that treats them as fatal stops on them.

use crate::error::LockError;
use crate::host::{contended_os_code, IoFailure, LockMode, LockName, LockReply, LockRequest};
use vstd::prelude::*;

verus! {

/// What the reply to the release of `name` comes to.
pub open spec fn spec_release(name: LockName, reply: Result<(), IoFailure>) -> Result<
    (),
    LockError,
> {
    match reply {
        Ok(()) => Ok(()),
        Err(failure) => Err(LockError::Unlock { name, failure }),
    }
}

fn hold(name: LockName, reply: LockReply) -> (held: Result<(), LockError>)
    ensures
        held is Ok <==> reply is Acquired,
        held matches Err(fault) ==> reply.spec_fault(name) == Some(fault),
{
    match reply {
        LockReply::Acquired => Ok(()),
        LockReply::CreateFailed(failure) => Err(LockError::Create { name, failure }),
        LockReply::LockFailed(failure) => Err(LockError::Lock { name, failure }),
    }
}

fn release(name: LockName, reply: Result<(), IoFailure>) -> (released: Result<(), LockError>)
    ensures
        released == spec_release(name, reply),
{
    match reply {
        Ok(()) => Ok(()),
        Err(failure) => Err(LockError::Unlock { name, failure }),
    }
}

/// Held by the process that owns the GPU: it keeps two kernels from being
/// set up at the same time. The value stands for a lock that the host has
/// granted; its holder releases that lock when it lets go of the value.
#[derive(Debug)]
pub struct GPULock(());

impl GPULock {
    /// The request that acquires the lock: exclusive, waiting until no other
    /// process holds it, and kept.
    pub fn lock_request() -> (request: LockRequest)
        ensures
            request == (LockRequest {
                name: LockName::Gpu,
                mode: LockMode::Exclusive,
                blocking: true,
                retain: true,
            }),
    {
        LockRequest {
            name: LockName::Gpu,
            mode: LockMode::Exclusive,
            blocking: true,
            retain: true,
        }
    }

    /// Reads the host's reply to [`GPULock::lock_request`]. The lock is held
    /// exactly when it was granted; a file that could not be created and a
    /// request that failed are faults.
    pub fn lock(reply: LockReply) -> (lock: Result<GPULock, LockError>)
        ensures
            lock is Ok <==> reply is Acquired,
            lock matches Err(fault) ==> reply.spec_fault(LockName::Gpu) == Some(fault),
    {
        match hold(LockName::Gpu, reply) {
            Ok(()) => Ok(GPULock(())),
            Err(fault) => Err(fault),
        }
    }

    /// Gives the lock up: `reply` is the host's answer to its release. A
    /// release that failed is a fault.
    pub fn unlock(self, reply: Result<(), IoFailure>) -> (released: Result<(), LockError>)
        ensures
            released == spec_release(LockName::Gpu, reply),
    {
        release(LockName::Gpu, reply)
    }
}

/// A flag: the process that holds it needs the GPU soon, and every other
/// process is asked to give the GPU up. One process holds it at a time.
#[derive(Debug)]
pub struct PriorityLock(());

impl PriorityLock {
    /// What a process that does not hold the flag concludes from the host's
    /// reply to its wait: whether it goes on at once, and the failure that it
    /// passed over in doing so.
    pub open spec fn spec_wait(priority: bool, reply: Option<LockReply>) -> Result<
        Option<IoFailure>,
        LockError,
    > {
        match reply {
            Some(LockReply::CreateFailed(failure)) if !priority => Err(
                LockError::Create { name: LockName::Priority, failure },
            ),
            Some(LockReply::LockFailed(failure)) if !priority => Ok(Some(failure)),
            _ => Ok(None),
        }
    }

    /// What a probe comes to where `contended` is the raw code of the error
    /// of a contended lock: whether to back off, and the failure that was
    /// passed over where the answer is not to.
    pub open spec fn spec_should_break(
        priority: bool,
        reply: Option<LockReply>,
        contended: Option<i32>,
    ) -> Result<(bool, Option<IoFailure>), LockError> {
        match reply {
            Some(LockReply::CreateFailed(failure)) if !priority => Err(
                LockError::Create { name: LockName::Priority, failure },
            ),
            Some(LockReply::LockFailed(failure)) if !priority => if failure.os_code
                == contended {
                Ok((true, None))
            } else {
                Ok((false, Some(failure)))
            },
            _ => Ok((false, None)),
        }
    }

    /// The request that raises the flag: exclusive, waiting until no other
    /// process holds it, and kept.
    pub fn lock_request() -> (request: LockRequest)
        ensures
            request == (LockRequest {
                name: LockName::Priority,
                mode: LockMode::Exclusive,
                blocking: true,
                retain: true,
            }),
    {
        LockRequest {
            name: LockName::Priority,
            mode: LockMode::Exclusive,
            blocking: true,
            retain: true,
        }
    }

    /// Reads the host's reply to [`PriorityLock::lock_request`]. The flag is
    /// held exactly when it was granted; a file that could not be created and
    /// a request that failed are faults.
    pub fn lock(reply: LockReply) -> (lock: Result<PriorityLock, LockError>)
        ensures
            lock is Ok <==> reply is Acquired,
            lock matches Err(fault) ==> reply.spec_fault(LockName::Priority) == Some(fault),
    {
        match hold(LockName::Priority, reply) {
            Ok(()) => Ok(PriorityLock(())),
            Err(fault) => Err(fault),
        }
    }

    /// Lowers the flag: `reply` is the host's answer to its release. A
    /// release that failed is a fault.
    pub fn unlock(self, reply: Result<(), IoFailure>) -> (released: Result<(), LockError>)
        ensures
            released == spec_release(LockName::Priority, reply),
    {
        release(LockName::Priority, reply)
    }

    /// The request by which a process waits until the flag is down. The
    /// process that raised the flag asks for nothing and does not touch the
    /// lock. Every other process asks for the lock exclusively, waits until
    /// it is granted, and releases it at once: it is granted only when no
    /// process holds the flag, and the process keeps no claim on it.
    pub fn wait_request(priority: bool) -> (request: Option<LockRequest>)
        ensures
            priority ==> request is None,
            !priority ==> request == Some(
                LockRequest {
                    name: LockName::Priority,
                    mode: LockMode::Exclusive,
                    blocking: true,
                    retain: false,
                },
            ),
    {
        if priority {
            None
        } else {
            Some(
                LockRequest {
                    name: LockName::Priority,
                    mode: LockMode::Exclusive,
                    blocking: true,
                    retain: false,
                },
            )
        }
    }

    /// Ends a wait: `reply` is the host's answer to
    /// [`PriorityLock::wait_request`], `None` where that asked for nothing.
    /// The process that raised the flag goes on whatever `reply` holds. For
    /// every other process a file that could not be created is a fault; a
    /// request that failed is passed over, and the process goes on with the
    /// failure in hand to report it.
    pub fn wait(priority: bool, reply: Option<LockReply>) -> (waited: Result<
        Option<IoFailure>,
        LockError,
    >)
        ensures
            waited == Self::spec_wait(priority, reply),
            priority ==> waited == Ok::<Option<IoFailure>, LockError>(None),
    {
        if priority {
            return Ok(None);
        }
        match reply {
            Some(LockReply::CreateFailed(failure)) => Err(
                LockError::Create { name: LockName::Priority, failure },
            ),
            Some(LockReply::LockFailed(failure)) => Ok(Some(failure)),
            _ => Ok(None),
        }
    }

    /// The request by which a process that works on the GPU looks whether the
    /// flag is up. The process that raised the flag asks for nothing. Every
    /// other process asks for the lock in shared mode without waiting, and
    /// releases it at once: the request fails on contention exactly when
    /// another process holds the flag.
    pub fn probe_request(priority: bool) -> (request: Option<LockRequest>)
        ensures
            priority ==> request is None,
            !priority ==> request == Some(
                LockRequest {
                    name: LockName::Priority,
                    mode: LockMode::Shared,
                    blocking: false,
                    retain: false,
                },
            ),
    {
        if priority {
            None
        } else {
            Some(
                LockRequest {
                    name: LockName::Priority,
                    mode: LockMode::Shared,
                    blocking: false,
                    retain: false,
                },
            )
        }
    }

    /// Whether to back off, where the host gives the raw code `contended` to
    /// the error of a contended lock: `reply` is the host's answer to
    /// [`PriorityLock::probe_request`], `None` where that asked for nothing.
    ///
    /// The process that raised the flag never backs off. Every other process
    /// backs off exactly when its request failed with the code `contended`.
    /// A request that failed with another code, or with none, is passed over
    /// and comes back beside the answer; a file that could not be created is
    /// a fault.
    pub fn should_break_on(
        priority: bool,
        reply: Option<LockReply>,
        contended: Option<i32>,
    ) -> (probe: Result<(bool, Option<IoFailure>), LockError>)
        ensures
            probe == Self::spec_should_break(priority, reply, contended),
            priority ==> probe == Ok::<(bool, Option<IoFailure>), LockError>((false, None)),
            probe matches Ok((true, _)) <==> !priority && (reply matches Some(
                LockReply::LockFailed(failure),
            ) && failure.os_code == contended),
    {
        if priority {
            return Ok((false, None));
        }
        match reply {
            Some(LockReply::CreateFailed(failure)) => Err(
                LockError::Create { name: LockName::Priority, failure },
            ),
            Some(LockReply::LockFailed(failure)) => if failure.os_code == contended {
                Ok((true, None))
            } else {
                Ok((false, Some(failure)))
            },
            _ => Ok((false, None)),
        }
    }

    /// Whether to back off: [`PriorityLock::should_break_on`] with the code
    /// that this platform gives to the error of a contended lock. The process
    /// that raised the flag never backs off, whatever `reply` holds. The
    /// platform's code is known only when the program runs; there always is
    /// one, so a failure without a raw code never counts as contention.
    pub fn should_break(priority: bool, reply: Option<LockReply>) -> (probe: Result<
        (bool, Option<IoFailure>),
        LockError,
    >)
        ensures
            priority ==> probe == Ok::<(bool, Option<IoFailure>), LockError>((false, None)),
            exists|contended: i32|
                probe == #[trigger] Self::spec_should_break(priority, reply, Some(contended)),
    {
        let contended = contended_os_code();
        let probe = Self::should_break_on(priority, reply, contended);
        assert(probe == Self::spec_should_break(priority, reply, Some(contended->0)));
        probe
    }
}

} // verus!
