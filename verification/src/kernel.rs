//! A kernel handle behind the priority protocol.
//!
//! A [`LockedKernel`] owns at most one kernel handle and creates it when it
//! is first needed. It neither waits on a lock, nor creates a kernel, nor
//! runs work itself: [`LockedKernel::step`] takes what has happened, as an
//! [`Event`], and answers with what the caller is to do next, as an
//! [`Action`]. One unit of work is the run of steps from [`Event::Start`] to
//! [`Action::Return`].

use crate::error::{GPUError, GPUResult};
use vstd::prelude::*;

verus! {

/// Where a [`LockedKernel`] stands. It has a handle in `Active` and has lent
/// it out in `Running`; in every other state it has none.
#[derive(Debug)]
pub enum SlotState<K> {
    /// No handle, and nothing under way.
    Uninitialized,
    /// No handle: the wait for the priority flag is under way.
    Waiting,
    /// No handle: the factory is at work.
    Creating,
    /// The handle is with the work that is under way.
    Running,
    /// The handle is at rest.
    Active(K),
}

/// What has happened since the last step.
#[derive(Debug)]
pub enum Event<K, R> {
    /// A unit of work begins. `disabled` is the host's switch that turns the
    /// GPU off, as read now.
    Start { disabled: bool },
    /// The wait for the priority flag is over.
    Waited,
    /// The factory has returned: a handle, or `None` where none is to be had.
    Created(Option<K>),
    /// The work has returned: the handle that it ran on, and its result.
    Ran(K, GPUResult<R>),
}

/// What the caller is to do next.
#[derive(Debug)]
pub enum Action<K, R> {
    /// Wait until no other process holds the priority flag, as
    /// [`crate::PriorityLock::wait_request`] says for `priority`, then step
    /// with [`Event::Waited`].
    Wait { priority: bool },
    /// Call the factory with these arguments, then step with
    /// [`Event::Created`].
    Create { log_d: usize, priority: bool },
    /// Run the work on this handle, then step with [`Event::Ran`].
    Run(K),
    /// The unit of work is over, with this result.
    Return(GPUResult<R>),
}

/// The mathematical value of a [`LockedKernel`].
pub struct SlotView<K> {
    /// The exponent of the size of the work, handed to the factory.
    pub log_d: usize,
    /// Whether this process is the one that asks for the GPU with priority.
    pub priority: bool,
    /// Where the slot stands, with the handle where it has one.
    pub state: SlotState<K>,
}

impl<K> SlotView<K> {
    /// The same slot in another state.
    pub open spec fn at(self, state: SlotState<K>) -> SlotView<K> {
        SlotView { log_d: self.log_d, priority: self.priority, state }
    }

    /// Whether `event` answers what the slot is waiting for. A unit of work
    /// may begin in every state: one that was left unfinished is given up.
    pub open spec fn accepts<R>(self, event: Event<K, R>) -> bool {
        match event {
            Event::Start { .. } => true,
            Event::Waited => self.state is Waiting,
            Event::Created(_) => self.state is Creating,
            Event::Ran(_, _) => self.state is Running,
        }
    }

    /// Sets out to have the work run: on the handle, where there is one, and
    /// else by waiting for the priority flag, which comes before the factory.
    pub open spec fn init<R>(self) -> (SlotView<K>, Action<K, R>) {
        match self.state {
            SlotState::Active(kernel) => (self.at(SlotState::Running), Action::Run(kernel)),
            _ => (self.at(SlotState::Waiting), Action::Wait { priority: self.priority }),
        }
    }

    /// The slot after `event`, and the action that it asks for.
    pub open spec fn step<R>(self, event: Event<K, R>) -> (SlotView<K>, Action<K, R>)
        recommends
            self.accepts(event),
    {
        match event {
            Event::Start { disabled } => if disabled {
                (self, Action::Return(Err(GPUError::GPUDisabled)))
            } else {
                self.init()
            },
            Event::Waited => (
                self.at(SlotState::Creating),
                Action::Create { log_d: self.log_d, priority: self.priority },
            ),
            Event::Created(Some(kernel)) => (self.at(SlotState::Running), Action::Run(kernel)),
            Event::Created(None) => (
                self.at(SlotState::Uninitialized),
                Action::Return(Err(GPUError::KernelUninitialized)),
            ),
            Event::Ran(kernel, Ok(value)) => (
                self.at(SlotState::Active(kernel)),
                Action::Return(Ok(value)),
            ),
            Event::Ran(_, Err(GPUError::GPUTaken)) => self.at(SlotState::Uninitialized).init(),
            Event::Ran(kernel, Err(error)) => (
                self.at(SlotState::Active(kernel)),
                Action::Return(Err(error)),
            ),
        }
    }
}

/// A slot for one kernel handle of kind `K`, which is created when it is
/// first needed and given up whenever a process of higher priority asks for
/// the GPU.
#[derive(Debug)]
pub struct LockedKernel<K> {
    log_d: usize,
    priority: bool,
    state: SlotState<K>,
}

impl<K> View for LockedKernel<K> {
    type V = SlotView<K>;

    closed spec fn view(&self) -> SlotView<K> {
        SlotView { log_d: self.log_d, priority: self.priority, state: self.state }
    }
}

impl<K> LockedKernel<K> {
    /// A slot without a handle. No lock is touched and no kernel is created
    /// before the first unit of work.
    pub fn new(log_d: usize, priority: bool) -> (slot: LockedKernel<K>)
        ensures
            slot@ == (SlotView::<K> { log_d, priority, state: SlotState::Uninitialized }),
    {
        LockedKernel { log_d, priority, state: SlotState::Uninitialized }
    }

    /// Whether the slot has a handle at rest.
    pub fn is_active(&self) -> (active: bool)
        ensures
            active == (self@.state is Active),
    {
        match self.state {
            SlotState::Active(_) => true,
            _ => false,
        }
    }

    /// Whether [`LockedKernel::step`] may be called with `event`.
    pub fn accepts<R>(&self, event: &Event<K, R>) -> (accepted: bool)
        ensures
            accepted == self@.accepts(*event),
    {
        match event {
            Event::Start { .. } => true,
            Event::Waited => match self.state {
                SlotState::Waiting => true,
                _ => false,
            },
            Event::Created(_) => match self.state {
                SlotState::Creating => true,
                _ => false,
            },
            Event::Ran(_, _) => match self.state {
                SlotState::Running => true,
                _ => false,
            },
        }
    }

    fn init<R>(&mut self) -> (action: Action<K, R>)
        ensures
            (final(self)@, action) == old(self)@.init::<R>(),
    {
        let mut state = SlotState::Waiting;
        core::mem::swap(&mut self.state, &mut state);
        match state {
            SlotState::Active(kernel) => {
                self.state = SlotState::Running;
                Action::Run(kernel)
            },
            _ => Action::Wait { priority: self.priority },
        }
    }

    fn free(&mut self, kernel: K)
        ensures
            final(self)@ == old(self)@.at(SlotState::Uninitialized),
    {
        // The handle is owned here and dropped on return, before the caller
        // is asked to wait.
        let _ = kernel;
        self.state = SlotState::Uninitialized;
    }

    /// Takes `event` and says what to do next.
    ///
    /// A unit of work ends at once with [`GPUError::GPUDisabled`] where the
    /// GPU is switched off, and leaves the slot as it was. Else the work runs
    /// on the handle; where there is none, the slot first has the caller wait
    /// for the priority flag and then call the factory, and ends with
    /// [`GPUError::KernelUninitialized`] if that gives no handle. Work that
    /// returns a value or an error ends the unit with it, and the handle
    /// stays. Work that returns [`GPUError::GPUTaken`] has the handle
    /// dropped, and the slot sets out for a new one and for another run.
    pub fn step<R>(&mut self, event: Event<K, R>) -> (action: Action<K, R>)
        requires
            old(self)@.accepts(event),
        ensures
            (final(self)@, action) == old(self)@.step(event),
    {
        match event {
            Event::Start { disabled } => {
                if disabled {
                    Action::Return(Err(GPUError::GPUDisabled))
                } else {
                    self.init()
                }
            },
            Event::Waited => {
                self.state = SlotState::Creating;
                Action::Create { log_d: self.log_d, priority: self.priority }
            },
            Event::Created(Some(kernel)) => {
                self.state = SlotState::Running;
                Action::Run(kernel)
            },
            Event::Created(None) => {
                self.state = SlotState::Uninitialized;
                Action::Return(Err(GPUError::KernelUninitialized))
            },
            Event::Ran(kernel, Ok(value)) => {
                self.state = SlotState::Active(kernel);
                Action::Return(Ok(value))
            },
            Event::Ran(kernel, Err(GPUError::GPUTaken)) => {
                self.free(kernel);
                self.init()
            },
            Event::Ran(kernel, Err(error)) => {
                self.state = SlotState::Active(kernel);
                Action::Return(Err(error))
            },
        }
    }
}

} // verus!
