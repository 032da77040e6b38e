//! What a whole unit of work comes to, and the laws of the protocol.
//!
//! The caller of [`crate::LockedKernel::step`] waits, calls the factory and
//! runs the work. Here the factory and the work are given as lists of what
//! they return, call by call, and [`run_with`] follows the steps of the slot
//! through them.

use crate::error::{GPUError, GPUResult};
use crate::kernel::{Action, Event, SlotState, SlotView};
use vstd::prelude::*;

verus! {

/// What one unit of work came to.
pub struct Outcome<K, R> {
    /// The slot when the steps ended.
    pub slot: SlotView<K>,
    /// The result of the unit of work; `None` where the lists came to their
    /// end before the unit of work did.
    pub result: Option<GPUResult<R>>,
    /// How often the caller waited for the priority flag.
    pub waits: nat,
    /// How often the factory was called.
    pub creates: nat,
    /// How often the work was run.
    pub runs: nat,
    /// How many handles did not come back into the slot after a run: they
    /// were dropped for a process of higher priority.
    pub frees: nat,
}

/// Orders the actions by how far each is from the next run of the work.
pub open spec fn distance<K, R>(action: Action<K, R>) -> nat {
    match action {
        Action::Wait { .. } => 2,
        Action::Create { .. } => 1,
        _ => 0,
    }
}

/// Carries out `action` and every action after it. The factory returns
/// `kernels`, one entry a call; the work returns `runs`, one entry a run: the
/// handle as the work left it, and its result.
pub open spec fn drive<K, R>(
    slot: SlotView<K>,
    action: Action<K, R>,
    kernels: Seq<Option<K>>,
    runs: Seq<(K, GPUResult<R>)>,
) -> Outcome<K, R>
    decreases runs.len(), kernels.len(), distance(action),
{
    let pending = Outcome { slot, result: None, waits: 0, creates: 0, runs: 0, frees: 0 };
    match action {
        Action::Return(result) => Outcome { result: Some(result), ..pending },
        Action::Wait { .. } => {
            let (next, then) = slot.step::<R>(Event::Waited);
            let rest = drive(next, then, kernels, runs);
            Outcome { waits: rest.waits + 1, ..rest }
        },
        Action::Create { .. } => if kernels.len() == 0 {
            pending
        } else {
            let (next, then) = slot.step::<R>(Event::Created(kernels[0]));
            let rest = drive(next, then, kernels.drop_first(), runs);
            Outcome { creates: rest.creates + 1, ..rest }
        },
        Action::Run(_) => if runs.len() == 0 {
            pending
        } else {
            let (next, then) = slot.step(Event::Ran(runs[0].0, runs[0].1));
            let rest = drive(next, then, kernels, runs.drop_first());
            let freed: nat = if next.state is Active {
                0
            } else {
                1
            };
            Outcome { runs: rest.runs + 1, frees: rest.frees + freed, ..rest }
        },
    }
}

/// One unit of work on `slot`, from its start to its result. `disabled` is
/// the host's switch that turns the GPU off.
pub open spec fn run_with<K, R>(
    slot: SlotView<K>,
    disabled: bool,
    kernels: Seq<Option<K>>,
    runs: Seq<(K, GPUResult<R>)>,
) -> Outcome<K, R> {
    let (next, then) = slot.step::<R>(Event::Start { disabled });
    drive(next, then, kernels, runs)
}

/// Whether `event` is what comes of carrying `action` out.
pub open spec fn answers<K, R>(event: Event<K, R>, action: Action<K, R>) -> bool {
    match action {
        Action::Wait { .. } => event is Waited,
        Action::Create { .. } => event is Created,
        Action::Run(_) => event is Ran,
        Action::Return(_) => false,
    }
}

/// Whether each of the first `n` runs was preempted.
pub open spec fn preempted<K, R>(runs: Seq<(K, GPUResult<R>)>, n: nat) -> bool {
    &&& n <= runs.len()
    &&& forall|i: int|
        0 <= i < n ==> (#[trigger] runs[i]).1 == Err::<R, GPUError>(GPUError::GPUTaken)
}

/// Whether each of the first `n` calls of the factory gave a handle.
pub open spec fn available<K>(kernels: Seq<Option<K>>, n: nat) -> bool {
    &&& n <= kernels.len()
    &&& forall|i: int| 0 <= i < n ==> #[trigger] kernels[i] is Some
}

/// The unit of work ended because the work returned something other than
/// `GPUTaken`: the last run is the one after those that were preempted, its
/// result is the result of the unit, the handle it ran on rests in the slot,
/// and every call of the factory gave a handle.
pub open spec fn ended_by_work<K, R>(
    outcome: Outcome<K, R>,
    kernels: Seq<Option<K>>,
    runs: Seq<(K, GPUResult<R>)>,
) -> bool {
    &&& outcome.runs == outcome.frees + 1
    &&& outcome.result == Some(runs[outcome.frees as int].1)
    &&& outcome.result != Some(Err::<R, GPUError>(GPUError::GPUTaken))
    &&& outcome.slot.state == SlotState::Active(runs[outcome.frees as int].0)
    &&& available(kernels, outcome.creates)
}

/// The unit of work ended because the factory gave no handle: that was its
/// last call, every run was preempted, the result is `KernelUninitialized`
/// and the slot has no handle.
pub open spec fn ended_by_factory<K, R>(
    outcome: Outcome<K, R>,
    kernels: Seq<Option<K>>,
    runs: Seq<(K, GPUResult<R>)>,
) -> bool {
    &&& outcome.runs == outcome.frees
    &&& outcome.creates >= 1
    &&& available(kernels, (outcome.creates - 1) as nat)
    &&& kernels[outcome.creates - 1] is None
    &&& outcome.result == Some(Err::<R, GPUError>(GPUError::KernelUninitialized))
    &&& outcome.slot.state is Uninitialized
}

/// A caller that does what it is asked is never out of step: after every
/// step the slot accepts what comes of the action that it asked for, and the
/// start of a unit of work at any time.
pub proof fn answer_is_accepted<K, R>(slot: SlotView<K>, event: Event<K, R>, answer: Event<K, R>)
    requires
        answers(answer, slot.step(event).1) || answer is Start,
    ensures
        slot.step(event).0.accepts(answer),
{
}

/// The factory is called only in answer to a wait that has ended, and with
/// the slot's own exponent and priority.
pub proof fn create_only_after_wait<K, R>(slot: SlotView<K>, event: Event<K, R>)
    ensures
        slot.step(event).1 is Create <==> event is Waited,
        event is Waited ==> slot.step(event).1 == (Action::<K, R>::Create {
            log_d: slot.log_d,
            priority: slot.priority,
        }),
{
}

/// With the GPU switched off a unit of work returns `GPUDisabled` and does
/// nothing else: no wait on a lock, no call of the factory, no run of the
/// work, and the slot stays as it was.
pub proof fn disabled_touches_nothing<K, R>(
    slot: SlotView<K>,
    kernels: Seq<Option<K>>,
    runs: Seq<(K, GPUResult<R>)>,
)
    ensures
        run_with(slot, true, kernels, runs) == (Outcome {
            slot,
            result: Some(Err::<R, GPUError>(GPUError::GPUDisabled)),
            waits: 0,
            creates: 0,
            runs: 0,
            frees: 0,
        }),
{
}

/// `GPUTaken` is for the slot alone: no step hands it to the caller, so no
/// unit of work returns it.
pub proof fn taken_is_never_returned<K, R>(
    slot: SlotView<K>,
    disabled: bool,
    kernels: Seq<Option<K>>,
    runs: Seq<(K, GPUResult<R>)>,
)
    ensures
        forall|event: Event<K, R>|
            slot.step(event).1 != Action::<K, R>::Return(Err(GPUError::GPUTaken)),
        run_with(slot, disabled, kernels, runs).result != Some(
            Err::<R, GPUError>(GPUError::GPUTaken),
        ),
{
    let (next, then) = slot.step::<R>(Event::Start { disabled });
    lemma_drive_never_taken(next, then, kernels, runs);
}

/// A unit of work on a GPU that is switched on ends in one of two ways:
/// because the work returned something other than `GPUTaken`, or because the
/// factory gave no handle.
///
/// Either way each run before the end was preempted and had its handle
/// dropped. The factory was called once for each handle dropped and once
/// more where the slot began without one, and each call of the factory came
/// after a wait of its own. The exponent and the priority of the slot stay as
/// they were. The steps stop without a result only where a list is at its
/// end.
pub proof fn unit_ends_by_work_or_by_factory<K, R>(
    slot: SlotView<K>,
    kernels: Seq<Option<K>>,
    runs: Seq<(K, GPUResult<R>)>,
)
    ensures
        ({
            let outcome = run_with(slot, false, kernels, runs);
            &&& outcome.slot == slot.at(outcome.slot.state)
            &&& preempted(runs, outcome.frees)
            &&& outcome.runs <= runs.len()
            &&& outcome.creates <= kernels.len()
            &&& outcome.result is Some ==> {
                &&& outcome.creates == outcome.frees + if slot.state is Active {
                    0nat
                } else {
                    1nat
                }
                &&& outcome.waits == outcome.creates
                &&& if outcome.slot.state is Active {
                    ended_by_work(outcome, kernels, runs)
                } else {
                    ended_by_factory(outcome, kernels, runs)
                }
            }
            &&& outcome.result is None ==> {
                ||| outcome.runs == runs.len()
                ||| outcome.creates == kernels.len()
            }
        }),
{
    let (next, then) = slot.init::<R>();
    lemma_drive_explained(next, then, kernels, runs);
}

/// Work that is preempted `n` times and then succeeds, with a factory that
/// gives a handle whenever it is called: the unit of work returns the value
/// of the last run, after `n` handles were dropped and as many acquired
/// anew. The factory is called `n + 1` times on a slot that began without a
/// handle and `n` times on one that began with one, each time after a wait of
/// its own.
pub proof fn retry_converges<K, R>(
    slot: SlotView<K>,
    kernels: Seq<Option<K>>,
    runs: Seq<(K, GPUResult<R>)>,
    n: nat,
    value: R,
)
    requires
        preempted(runs, n),
        runs.len() > n,
        runs[n as int].1 == Ok::<R, GPUError>(value),
        available(kernels, if slot.state is Active { n } else { n + 1 }),
    ensures
        run_with(slot, false, kernels, runs) == (Outcome {
            slot: slot.at(SlotState::Active(runs[n as int].0)),
            result: Some(Ok(value)),
            waits: if slot.state is Active { n } else { n + 1 },
            creates: if slot.state is Active { n } else { n + 1 },
            runs: n + 1,
            frees: n,
        }),
{
    lemma_resume_converges(slot, kernels, runs, n, value);
}

/// Where the factory has no handle to give at its first call, and so where
/// it never has one, the unit of work ends with `KernelUninitialized` after
/// that one call and does not try again. This is so on a slot that begins
/// without a handle, and on one that begins with a handle and has its first
/// run preempted.
pub proof fn unavailable_ends_the_unit<K, R>(
    slot: SlotView<K>,
    kernels: Seq<Option<K>>,
    runs: Seq<(K, GPUResult<R>)>,
)
    requires
        kernels.len() > 0,
        kernels[0] is None,
        slot.state is Active ==> preempted(runs, 1),
    ensures
        run_with(slot, false, kernels, runs) == (Outcome {
            slot: slot.at(SlotState::Uninitialized),
            result: Some(Err::<R, GPUError>(GPUError::KernelUninitialized)),
            waits: 1,
            creates: 1,
            runs: if slot.state is Active { 1nat } else { 0nat },
            frees: if slot.state is Active { 1nat } else { 0nat },
        }),
{
    reveal_with_fuel(drive, 5);
    if slot.state is Active {
        assert(runs[0].1 == Err::<R, GPUError>(GPUError::GPUTaken));
    }
}

/// Work that fails on its first run with an error other than `GPUTaken`
/// ends the unit of work with that error: the work is not run again, no
/// handle is dropped, and the factory is not called a second time.
pub proof fn failure_is_terminal<K, R>(
    slot: SlotView<K>,
    kernels: Seq<Option<K>>,
    runs: Seq<(K, GPUResult<R>)>,
    error: GPUError,
)
    requires
        runs.len() > 0,
        runs[0].1 == Err::<R, GPUError>(error),
        error != GPUError::GPUTaken,
        !(slot.state is Active) ==> kernels.len() > 0 && kernels[0] is Some,
    ensures
        run_with(slot, false, kernels, runs) == (Outcome {
            slot: slot.at(SlotState::Active(runs[0].0)),
            result: Some(Err::<R, GPUError>(error)),
            waits: if slot.state is Active { 0nat } else { 1nat },
            creates: if slot.state is Active { 0nat } else { 1nat },
            runs: 1,
            frees: 0,
        }),
{
    reveal_with_fuel(drive, 5);
}

proof fn lemma_drive_never_taken<K, R>(
    slot: SlotView<K>,
    action: Action<K, R>,
    kernels: Seq<Option<K>>,
    runs: Seq<(K, GPUResult<R>)>,
)
    requires
        action != Action::<K, R>::Return(Err(GPUError::GPUTaken)),
    ensures
        drive(slot, action, kernels, runs).result != Some(Err::<R, GPUError>(GPUError::GPUTaken)),
    decreases runs.len(), kernels.len(), distance(action),
{
    match action {
        Action::Return(_) => {},
        Action::Wait { .. } => {
            let (next, then) = slot.step::<R>(Event::Waited);
            lemma_drive_never_taken(next, then, kernels, runs);
        },
        Action::Create { .. } => {
            if kernels.len() > 0 {
                let (next, then) = slot.step::<R>(Event::Created(kernels[0]));
                lemma_drive_never_taken(next, then, kernels.drop_first(), runs);
            }
        },
        Action::Run(_) => {
            if runs.len() > 0 {
                let (next, then) = slot.step(Event::Ran(runs[0].0, runs[0].1));
                lemma_drive_never_taken(next, then, kernels, runs.drop_first());
            }
        },
    }
}

/// What holds of the outcome of steps that still had to create `need`
/// handles before the next run, `waited` of them with the wait behind them.
spec fn explained<K, R>(
    outcome: Outcome<K, R>,
    slot: SlotView<K>,
    need: nat,
    waited: nat,
    kernels: Seq<Option<K>>,
    runs: Seq<(K, GPUResult<R>)>,
) -> bool {
    &&& outcome.slot == slot.at(outcome.slot.state)
    &&& preempted(runs, outcome.frees)
    &&& outcome.runs <= runs.len()
    &&& outcome.creates <= kernels.len()
    &&& outcome.result is Some ==> {
        &&& outcome.creates == outcome.frees + need
        &&& outcome.waits + waited == outcome.creates
        &&& if outcome.slot.state is Active {
            ended_by_work(outcome, kernels, runs)
        } else {
            ended_by_factory(outcome, kernels, runs)
        }
    }
    &&& outcome.result is None ==> {
        ||| outcome.runs == runs.len()
        ||| outcome.creates == kernels.len()
    }
}

proof fn lemma_drive_explained<K, R>(
    slot: SlotView<K>,
    action: Action<K, R>,
    kernels: Seq<Option<K>>,
    runs: Seq<(K, GPUResult<R>)>,
)
    requires
        !(action is Return),
    ensures
        explained(
            drive(slot, action, kernels, runs),
            slot,
            if action is Run { 0 } else { 1 },
            if action is Create { 1 } else { 0 },
            kernels,
            runs,
        ),
    decreases runs.len(), kernels.len(), distance(action),
{
    reveal_with_fuel(drive, 2);
    match action {
        Action::Return(_) => {},
        Action::Wait { .. } => {
            let (next, then) = slot.step::<R>(Event::Waited);
            lemma_drive_explained(next, then, kernels, runs);
        },
        Action::Create { .. } => {
            if kernels.len() > 0 && kernels[0] is Some {
                let (next, then) = slot.step::<R>(Event::Created(kernels[0]));
                let rest = drive(next, then, kernels.drop_first(), runs);
                lemma_drive_explained(next, then, kernels.drop_first(), runs);
                if rest.result is Some {
                    if rest.slot.state is Active {
                        lemma_available_after_first(kernels, rest.creates);
                    } else {
                        lemma_available_after_first(kernels, (rest.creates - 1) as nat);
                    }
                }
            }
        },
        Action::Run(_) => {
            if runs.len() > 0 && runs[0].1 == Err::<R, GPUError>(GPUError::GPUTaken) {
                let (next, then) = slot.step(Event::Ran(runs[0].0, runs[0].1));
                let rest = drive(next, then, kernels, runs.drop_first());
                lemma_drive_explained(next, then, kernels, runs.drop_first());
                lemma_preempted_after_first(runs, rest.frees);
            }
        },
    }
}

/// A list whose first run was preempted, and the `n` after it.
proof fn lemma_preempted_after_first<K, R>(runs: Seq<(K, GPUResult<R>)>, n: nat)
    requires
        runs.len() > 0,
        runs[0].1 == Err::<R, GPUError>(GPUError::GPUTaken),
        preempted(runs.drop_first(), n),
    ensures
        preempted(runs, n + 1),
        forall|i: int| 0 <= i < runs.len() - 1 ==> runs.drop_first()[i] == runs[i + 1],
{
    assert forall|i: int| 0 <= i < n + 1 implies (#[trigger] runs[i]).1 == Err::<R, GPUError>(
        GPUError::GPUTaken,
    ) by {
        if i > 0 {
            assert(runs[i] == runs.drop_first()[i - 1]);
        }
    }
}

/// A list whose first call gave a handle, and the `n` after it.
proof fn lemma_available_after_first<K>(kernels: Seq<Option<K>>, n: nat)
    requires
        kernels.len() > 0,
        kernels[0] is Some,
        available(kernels.drop_first(), n),
    ensures
        available(kernels, n + 1),
        forall|i: int| 0 <= i < kernels.len() - 1 ==> kernels.drop_first()[i] == kernels[i + 1],
{
    assert forall|i: int| 0 <= i < n + 1 implies #[trigger] kernels[i] is Some by {
        if i > 0 {
            assert(kernels[i] == kernels.drop_first()[i - 1]);
        }
    }
}

/// The steps from a slot that holds no unfinished work: the work is run on
/// the handle at rest, or a handle is acquired first.
spec fn resume<K, R>(
    slot: SlotView<K>,
    kernels: Seq<Option<K>>,
    runs: Seq<(K, GPUResult<R>)>,
) -> Outcome<K, R> {
    let (next, then) = slot.init::<R>();
    drive(next, then, kernels, runs)
}

proof fn lemma_resume_converges<K, R>(
    slot: SlotView<K>,
    kernels: Seq<Option<K>>,
    runs: Seq<(K, GPUResult<R>)>,
    n: nat,
    value: R,
)
    requires
        preempted(runs, n),
        runs.len() > n,
        runs[n as int].1 == Ok::<R, GPUError>(value),
        available(kernels, if slot.state is Active { n } else { n + 1 }),
    ensures
        resume(slot, kernels, runs) == (Outcome {
            slot: slot.at(SlotState::Active(runs[n as int].0)),
            result: Some(Ok(value)),
            waits: if slot.state is Active { n } else { n + 1 },
            creates: if slot.state is Active { n } else { n + 1 },
            runs: n + 1,
            frees: n,
        }),
    decreases n,
{
    reveal_with_fuel(drive, 4);
    if !(slot.state is Active) {
        lemma_available_before_rest(kernels, n + 1);
    }
    if n > 0 {
        lemma_preempted_before_rest(runs, n);
        lemma_resume_converges(
            slot.at(SlotState::Uninitialized),
            if slot.state is Active { kernels } else { kernels.drop_first() },
            runs.drop_first(),
            (n - 1) as nat,
            value,
        );
    }
}

/// A list whose first `n` runs were preempted: the first, and the rest.
proof fn lemma_preempted_before_rest<K, R>(runs: Seq<(K, GPUResult<R>)>, n: nat)
    requires
        n > 0,
        preempted(runs, n),
    ensures
        runs[0].1 == Err::<R, GPUError>(GPUError::GPUTaken),
        preempted(runs.drop_first(), (n - 1) as nat),
        forall|i: int| 0 <= i < runs.len() - 1 ==> runs.drop_first()[i] == runs[i + 1],
{
    assert forall|i: int| 0 <= i < n - 1 implies (#[trigger] runs.drop_first()[i]).1 == Err::<
        R,
        GPUError,
    >(GPUError::GPUTaken) by {
        assert(runs.drop_first()[i] == runs[i + 1]);
    }
}

/// A list whose first `n` calls gave a handle: the first, and the rest.
proof fn lemma_available_before_rest<K>(kernels: Seq<Option<K>>, n: nat)
    requires
        n > 0,
        available(kernels, n),
    ensures
        kernels[0] is Some,
        available(kernels.drop_first(), (n - 1) as nat),
{
    assert forall|i: int| 0 <= i < n - 1 implies #[trigger] kernels.drop_first()[i] is Some by {
        assert(kernels.drop_first()[i] == kernels[i + 1]);
    }
}

} // verus!
