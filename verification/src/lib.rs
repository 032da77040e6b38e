//! Arbitration of one GPU among the processes of a host.
//!
//! Two advisory file locks, shared by every process of the host, carry the
//! arbitration: the owner of the GPU holds the first, and a high-priority
//! process raises the second as a flag that asks the owner to step aside.
//! A [`LockedKernel`] keeps one kernel handle and wraps each unit of work in
//! the protocol that frees the handle for a priority process and acquires it
//! again.
//!
//! The library performs no input or output. Each operation on a lock is a
//! [`LockRequest`] for the caller to carry out on the host and a
//! [`LockReply`] to hand back; a unit of work is a run of [`LockedKernel::step`]
//! from one [`Event`] to the next [`Action`]. What such a run comes to as a
//! whole, and the laws that it obeys, stand in [`protocol`].

pub mod error;
pub mod host;
pub mod kernel;
pub mod locks;
pub mod protocol;

pub use error::{GPUError, GPUResult, LockError};
pub use host::{IoFailure, LockMode, LockName, LockReply, LockRequest};
pub use kernel::{Action, Event, LockedKernel, SlotState, SlotView};
pub use locks::{GPULock, PriorityLock};
