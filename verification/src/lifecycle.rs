//! Making sure that a VM runs, and stopping it. The lifecycle lock, once
//! acquired, is held until the operation has finished.

use crate::error::{Error, ExitStatus};
use crate::process::VmInspection;
use crate::state::{Change, IdleTake, State, VmCheck};
use vstd::prelude::*;

verus! {

/// Making sure that a VM runs, by what is to be done next. `V` stands for the
/// processes of a VM.
#[derive(Debug, PartialEq, Eq)]
pub enum EnsureVm<V, S> {
    /// Acquire the lifecycle lock.
    LockLifecycle,
    /// Find out what there is of the VM, and take it if it has stopped running.
    Examine,
    /// Terminate what is left of a VM that has stopped running.
    StopStale { vm: V },
    /// Start a VM.
    Start,
    /// Put the VM into the state.
    Install { vm: V },
    /// Nothing is left to do.
    Finished { result: Result<(), Error<S>> },
}

/// The answer to a step of making sure that a VM runs.
#[derive(Debug, PartialEq, Eq)]
pub enum EnsureEvent<V, S> {
    LifecycleLocked,
    Examined(VmCheck<V, S>),
    StaleStopped(Result<(), Error<S>>),
    Started(Result<V, Error<S>>),
    Installed,
}

impl<V, S> EnsureVm<V, S> {
    /// Whether `event` is an answer to this step.
    pub open spec fn answered_by(self, event: EnsureEvent<V, S>) -> bool {
        match self {
            EnsureVm::LockLifecycle => event is LifecycleLocked,
            EnsureVm::Examine => event is Examined,
            EnsureVm::StopStale { .. } => event is StaleStopped,
            EnsureVm::Start => event is Started,
            EnsureVm::Install { .. } => event is Installed,
            EnsureVm::Finished { .. } => false,
        }
    }

    /// The step that an answer leads to. That a stale VM could not be
    /// terminated does not keep a new one from starting.
    pub open spec fn next(event: EnsureEvent<V, S>) -> Self {
        match event {
            EnsureEvent::LifecycleLocked => EnsureVm::Examine,
            EnsureEvent::Examined(VmCheck::Failed(error)) => EnsureVm::Finished {
                result: Err(error),
            },
            EnsureEvent::Examined(VmCheck::Running) => EnsureVm::Finished { result: Ok(()) },
            EnsureEvent::Examined(VmCheck::Absent) => EnsureVm::Start,
            EnsureEvent::Examined(VmCheck::Stale(vm)) => EnsureVm::StopStale { vm },
            EnsureEvent::StaleStopped(_) => EnsureVm::Start,
            EnsureEvent::Started(Ok(vm)) => EnsureVm::Install { vm },
            EnsureEvent::Started(Err(error)) => EnsureVm::Finished { result: Err(error) },
            EnsureEvent::Installed => EnsureVm::Finished { result: Ok(()) },
        }
    }

    pub fn after(event: EnsureEvent<V, S>) -> (step: Self)
        ensures
            step == Self::next(event),
    {
        match event {
            EnsureEvent::LifecycleLocked => EnsureVm::Examine,
            EnsureEvent::Examined(found) => match found {
                VmCheck::Failed(error) => EnsureVm::Finished { result: Err(error) },
                VmCheck::Running => EnsureVm::Finished { result: Ok(()) },
                VmCheck::Absent => EnsureVm::Start,
                VmCheck::Stale(vm) => EnsureVm::StopStale { vm },
            },
            EnsureEvent::StaleStopped(_) => EnsureVm::Start,
            EnsureEvent::Started(started) => match started {
                Ok(vm) => EnsureVm::Install { vm },
                Err(error) => EnsureVm::Finished { result: Err(error) },
            },
            EnsureEvent::Installed => EnsureVm::Finished { result: Ok(()) },
        }
    }

    /// Whether the step starts, stops, takes or installs a VM.
    pub open spec fn touches_vm(self) -> bool {
        self is Examine || self is StopStale || self is Start || self is Install
    }

    /// The step that is reached once all of `events` have been taken, in order.
    pub open spec fn run(events: Seq<EnsureEvent<V, S>>) -> Self {
        if events.len() == 0 {
            EnsureVm::LockLifecycle
        } else {
            Self::next(events.last())
        }
    }

    /// Whether each of `events` answers the step that those before it lead to.
    pub open spec fn answers(events: Seq<EnsureEvent<V, S>>) -> bool {
        forall|i: int|
            0 <= i < events.len() ==> Self::run(events.take(i)).answered_by(#[trigger] events[i])
    }
}

/// Begins to make sure that a VM runs.
pub fn ensure_vm_running<V, S>() -> (step: EnsureVm<V, S>)
    ensures
        step == EnsureVm::<V, S>::LockLifecycle,
{
    EnsureVm::LockLifecycle
}

/// The lifecycle lock is acquired first and only then: no step that touches a
/// VM comes before it.
pub proof fn ensuring_holds_the_lifecycle_lock<V, S>(events: Seq<EnsureEvent<V, S>>)
    requires
        EnsureVm::<V, S>::answers(events),
        events.len() > 0,
    ensures
        events[0] is LifecycleLocked,
        forall|i: int| 0 < i < events.len() ==> !(#[trigger] events[i] is LifecycleLocked),
        EnsureVm::<V, S>::run(events) != EnsureVm::<V, S>::LockLifecycle,
        !EnsureVm::<V, S>::run(events.take(0)).touches_vm(),
{
    assert(EnsureVm::<V, S>::run(events.take(0)).answered_by(events[0]));
    assert forall|i: int| 0 < i < events.len() implies !(#[trigger] events[i] is LifecycleLocked) by {
        assert(EnsureVm::<V, S>::run(events.take(i)).answered_by(events[i]));
        assert(events.take(i).last() == events[i - 1]);
    }
}

/// Where it is made sure that a VM runs, success means that the VM was found
/// running or that a newly started one was put into the state.
pub proof fn ensured_vm_runs<V, S>(events: Seq<EnsureEvent<V, S>>)
    requires
        EnsureVm::<V, S>::answers(events),
        EnsureVm::<V, S>::run(events) is Finished,
        EnsureVm::<V, S>::run(events)->result is Ok,
    ensures
        events.len() >= 2,
        ({
            let n = events.len() as int;
            ||| events[n - 1] is Examined && events[n - 1]->Examined_0 is Running
            ||| {
                &&& events[n - 1] is Installed
                &&& events[n - 2] is Started
                &&& events[n - 2]->Started_0 is Ok
                &&& EnsureVm::<V, S>::run(events.take(n - 1)) == (EnsureVm::<V, S>::Install {
                    vm: events[n - 2]->Started_0->Ok_0,
                })
            }
        }),
{
    let n = events.len() as int;
    assert(EnsureVm::<V, S>::run(events.take(n - 1)).answered_by(events[n - 1]));
    if n >= 2 {
        assert(events.take(n - 1).last() == events[n - 2]);
    }
}

/// A VM is started only where none was found running, and what was left of one
/// that had stopped has been terminated before.
pub proof fn start_follows_examination<V, S>(events: Seq<EnsureEvent<V, S>>)
    requires
        EnsureVm::<V, S>::answers(events),
        EnsureVm::<V, S>::run(events) is Start,
    ensures
        events.len() >= 2,
        ({
            let n = events.len() as int;
            ||| events[n - 1] is Examined && events[n - 1]->Examined_0 is Absent
            ||| {
                &&& n >= 3
                &&& events[n - 1] is StaleStopped
                &&& events[n - 2] is Examined
                &&& events[n - 2]->Examined_0 is Stale
            }
        }),
{
    let n = events.len() as int;
    assert(EnsureVm::<V, S>::run(events.take(n - 1)).answered_by(events[n - 1]));
    if n >= 2 {
        assert(events.take(n - 1).last() == events[n - 2]);
        assert(EnsureVm::<V, S>::run(events.take(n - 2)).answered_by(events[n - 2]));
    }
}

/// Stopping the VM, by what is to be done next.
#[derive(Debug, PartialEq, Eq)]
pub enum StopVm<V, S> {
    /// Acquire the lifecycle lock.
    LockLifecycle,
    /// Take the VM out of the state, and invalidate scheduled idle shutdowns.
    Take,
    /// Terminate the VM.
    Terminate { vm: V },
    /// Nothing is left to do.
    Finished { result: Result<(), Error<S>> },
}

/// The answer to a step of stopping the VM.
#[derive(Debug, PartialEq, Eq)]
pub enum StopEvent<V, S> {
    LifecycleLocked,
    Taken(Option<V>),
    Terminated(Result<(), Error<S>>),
}

impl<V, S> StopVm<V, S> {
    /// Whether `event` is an answer to this step.
    pub open spec fn answered_by(self, event: StopEvent<V, S>) -> bool {
        match self {
            StopVm::LockLifecycle => event is LifecycleLocked,
            StopVm::Take => event is Taken,
            StopVm::Terminate { .. } => event is Terminated,
            StopVm::Finished { .. } => false,
        }
    }

    /// The step that an answer leads to.
    pub open spec fn next(event: StopEvent<V, S>) -> Self {
        match event {
            StopEvent::LifecycleLocked => StopVm::Take,
            StopEvent::Taken(Some(vm)) => StopVm::Terminate { vm },
            StopEvent::Taken(None) => StopVm::Finished { result: Ok(()) },
            StopEvent::Terminated(result) => StopVm::Finished { result },
        }
    }

    pub fn after(event: StopEvent<V, S>) -> (step: Self)
        ensures
            step == Self::next(event),
    {
        match event {
            StopEvent::LifecycleLocked => StopVm::Take,
            StopEvent::Taken(taken) => match taken {
                Some(vm) => StopVm::Terminate { vm },
                None => StopVm::Finished { result: Ok(()) },
            },
            StopEvent::Terminated(result) => StopVm::Finished { result },
        }
    }

    /// Whether the step takes or terminates a VM.
    pub open spec fn touches_vm(self) -> bool {
        self is Take || self is Terminate
    }

    /// The step that is reached once all of `events` have been taken, in order.
    pub open spec fn run(events: Seq<StopEvent<V, S>>) -> Self {
        if events.len() == 0 {
            StopVm::LockLifecycle
        } else {
            Self::next(events.last())
        }
    }

    /// Whether each of `events` answers the step that those before it lead to.
    pub open spec fn answers(events: Seq<StopEvent<V, S>>) -> bool {
        forall|i: int|
            0 <= i < events.len() ==> Self::run(events.take(i)).answered_by(#[trigger] events[i])
    }
}

/// Begins to stop the VM.
pub fn stop_vm<V, S>() -> (step: StopVm<V, S>)
    ensures
        step == StopVm::<V, S>::LockLifecycle,
{
    StopVm::LockLifecycle
}

/// The lifecycle lock is acquired first and only then: no step that touches a
/// VM comes before it.
pub proof fn stopping_holds_the_lifecycle_lock<V, S>(events: Seq<StopEvent<V, S>>)
    requires
        StopVm::<V, S>::answers(events),
        events.len() > 0,
    ensures
        events[0] is LifecycleLocked,
        forall|i: int| 0 < i < events.len() ==> !(#[trigger] events[i] is LifecycleLocked),
        StopVm::<V, S>::run(events) != StopVm::<V, S>::LockLifecycle,
        !StopVm::<V, S>::run(events.take(0)).touches_vm(),
{
    assert(StopVm::<V, S>::run(events.take(0)).answered_by(events[0]));
    assert forall|i: int| 0 < i < events.len() implies !(#[trigger] events[i] is LifecycleLocked) by {
        assert(StopVm::<V, S>::run(events.take(i)).answered_by(events[i]));
        assert(events.take(i).last() == events[i - 1]);
    }
}

/// A VM that is taken is terminated before stopping it has finished, and what
/// the termination comes to is what stopping comes to. Where there is none,
/// stopping succeeds.
pub proof fn taken_vm_is_terminated<V, S>(events: Seq<StopEvent<V, S>>)
    requires
        StopVm::<V, S>::answers(events),
        StopVm::<V, S>::run(events) is Finished,
    ensures
        events.len() >= 2,
        events[1] is Taken,
        match events[1]->Taken_0 {
            None => events.len() == 2 && StopVm::<V, S>::run(events)->result is Ok,
            Some(vm) => {
                &&& events.len() == 3
                &&& StopVm::<V, S>::run(events.take(2)) == (StopVm::<V, S>::Terminate { vm })
                &&& events[2] is Terminated
                &&& StopVm::<V, S>::run(events)->result == events[2]->Terminated_0
            },
        },
{
    assert(StopVm::<V, S>::run(events.take(0)).answered_by(events[0]));
    if events.len() >= 2 {
        assert(StopVm::<V, S>::run(events.take(1)).answered_by(events[1]));
        assert(events.take(1).last() == events[0]);
        if events.len() >= 3 {
            assert(StopVm::<V, S>::run(events.take(2)).answered_by(events[2]));
            assert(events.take(2).last() == events[1]);
            if events.len() >= 4 {
                assert(StopVm::<V, S>::run(events.take(3)).answered_by(events[3]));
                assert(events.take(3).last() == events[2]);
            }
        }
    }
}

/// Stopping a VM for idleness, by what is to be done next. The shutdown was
/// scheduled for `generation`.
#[derive(Debug, PartialEq, Eq)]
pub enum StopIfIdle<V, S> {
    /// Look whether the shutdown may go ahead.
    Check { generation: u64 },
    /// Acquire the lifecycle lock.
    LockLifecycle { generation: u64 },
    /// Take the VM out of the state if the shutdown may still go ahead.
    Take { generation: u64 },
    /// Terminate the VM.
    Terminate { vm: V },
    /// Nothing is left to do.
    Finished { result: Result<(), Error<S>> },
}

/// The answer to a step of stopping a VM for idleness.
pub enum IdleEvent<V, S> {
    /// Whether the shutdown may go ahead.
    Checked(bool),
    LifecycleLocked,
    Taken(IdleTake<V>),
    Terminated(Result<(), Error<S>>),
}

impl<V, S> StopIfIdle<V, S> {
    /// Whether `event` is an answer to this step.
    pub open spec fn answered_by(self, event: IdleEvent<V, S>) -> bool {
        match self {
            StopIfIdle::Check { .. } => event is Checked,
            StopIfIdle::LockLifecycle { .. } => event is LifecycleLocked,
            StopIfIdle::Take { .. } => event is Taken,
            StopIfIdle::Terminate { .. } => event is Terminated,
            StopIfIdle::Finished { .. } => false,
        }
    }

    /// The step that an answer leads to. To be cancelled is no failure. An
    /// answer to another step changes nothing.
    pub open spec fn next(self, event: IdleEvent<V, S>) -> Self {
        match (self, event) {
            (StopIfIdle::Check { generation }, IdleEvent::Checked(idle)) => if idle {
                StopIfIdle::LockLifecycle { generation }
            } else {
                StopIfIdle::Finished { result: Ok(()) }
            },
            (
                StopIfIdle::LockLifecycle { generation },
                IdleEvent::LifecycleLocked,
            ) => StopIfIdle::Take { generation },
            (StopIfIdle::Take { .. }, IdleEvent::Taken(taken)) => match taken {
                IdleTake::Taken(Some(vm)) => StopIfIdle::Terminate { vm },
                _ => StopIfIdle::Finished { result: Ok(()) },
            },
            (StopIfIdle::Terminate { .. }, IdleEvent::Terminated(result)) => StopIfIdle::Finished {
                result,
            },
            _ => self,
        }
    }

    /// Looks in `state` whether the shutdown may go ahead.
    pub fn check(self, state: &State<V>) -> (step: Self)
        ensures
            step == match self {
                StopIfIdle::Check { generation } => self.next(
                    IdleEvent::Checked(state.idle_since(generation)),
                ),
                _ => self,
            },
    {
        match self {
            StopIfIdle::Check { generation } => {
                if state.is_idle_since(generation) {
                    StopIfIdle::LockLifecycle { generation }
                } else {
                    StopIfIdle::Finished { result: Ok(()) }
                }
            },
            other => other,
        }
    }

    /// Goes on with the lifecycle lock held.
    pub fn locked(self) -> (step: Self)
        ensures
            step == self.next(IdleEvent::LifecycleLocked),
    {
        match self {
            StopIfIdle::LockLifecycle { generation } => StopIfIdle::Take { generation },
            other => other,
        }
    }

    /// Takes the VM out of `state` if the shutdown may still go ahead.
    pub fn take(self, state: &mut State<V>) -> (step: Self)
        ensures
            match self {
                StopIfIdle::Take { generation } => {
                    &&& step == self.next(IdleEvent::Taken(old(state).taken_if_idle(generation)))
                    &&& *final(state) == old(state).after(Change::TakenIfIdle(generation))
                },
                _ => step == self && *final(state) == *old(state),
            },
    {
        match self {
            StopIfIdle::Take { generation } => match state.take_if_idle(generation) {
                IdleTake::Taken(Some(vm)) => StopIfIdle::Terminate { vm },
                _ => StopIfIdle::Finished { result: Ok(()) },
            },
            other => other,
        }
    }

    /// Goes on once the VM that was taken has been terminated.
    pub fn terminated(result: Result<(), Error<S>>) -> (step: Self)
        ensures
            step == (StopIfIdle::<V, S>::Finished { result }),
            forall|vm: V|
                step == #[trigger] (StopIfIdle::<V, S>::Terminate { vm }).next(
                    IdleEvent::Terminated(result),
                ),
    {
        StopIfIdle::Finished { result }
    }

    /// Whether the step takes or terminates a VM.
    pub open spec fn touches_vm(self) -> bool {
        self is Take || self is Terminate
    }

    /// The step that is reached once all of `events` have been taken, in order.
    pub open spec fn run(self, events: Seq<IdleEvent<V, S>>) -> Self
        decreases events.len(),
    {
        if events.len() == 0 {
            self
        } else {
            self.run(events.drop_last()).next(events.last())
        }
    }

    /// Whether each of `events` answers the step that those before it lead to.
    pub open spec fn answers(self, events: Seq<IdleEvent<V, S>>) -> bool {
        forall|i: int|
            0 <= i < events.len() ==> self.run(events.take(i)).answered_by(#[trigger] events[i])
    }
}

/// Begins to stop a VM for idleness, where that was scheduled for `generation`.
pub fn stop_if_idle<V, S>(generation: u64) -> (step: StopIfIdle<V, S>)
    ensures
        step == (StopIfIdle::<V, S>::Check { generation }),
{
    StopIfIdle::Check { generation }
}

/// Both looks of an idle shutdown are for the generation that it was scheduled
/// for.
pub proof fn idle_stop_keeps_its_generation<V, S>(generation: u64, events: Seq<IdleEvent<V, S>>)
    ensures
        match (StopIfIdle::<V, S>::Check { generation }).run(events) {
            StopIfIdle::Check { generation: looked_for } => looked_for == generation,
            StopIfIdle::LockLifecycle { generation: looked_for } => looked_for == generation,
            StopIfIdle::Take { generation: looked_for } => looked_for == generation,
            _ => true,
        },
    decreases events.len(),
{
    if events.len() > 0 {
        idle_stop_keeps_its_generation(generation, events.drop_last());
    }
}

/// A step that touches a VM comes only once the lifecycle lock has been
/// acquired, and a VM that is terminated was taken with the lock held, after
/// two looks that found the shutdown not cancelled.
pub proof fn idle_stop_holds_the_lifecycle_lock<V, S>(
    generation: u64,
    events: Seq<IdleEvent<V, S>>,
)
    requires
        (StopIfIdle::<V, S>::Check { generation }).answers(events),
        (StopIfIdle::<V, S>::Check { generation }).run(events).touches_vm(),
    ensures
        events.len() >= 2,
        events[0] == IdleEvent::<V, S>::Checked(true),
        events[1] is LifecycleLocked,
        (StopIfIdle::<V, S>::Check { generation }).run(events) matches StopIfIdle::Terminate {
            vm,
        } ==> {
            &&& events.len() == 3
            &&& events[2] == IdleEvent::<V, S>::Taken(IdleTake::Taken(Some(vm)))
        },
{
    lemma_idle_steps(generation, events);
}

/// A VM that is taken for idleness is terminated before the shutdown has
/// finished, and what the termination comes to is what the shutdown comes to.
/// A shutdown that is cancelled succeeds.
pub proof fn idle_stop_terminates_what_it_takes<V, S>(
    generation: u64,
    events: Seq<IdleEvent<V, S>>,
)
    requires
        (StopIfIdle::<V, S>::Check { generation }).answers(events),
        (StopIfIdle::<V, S>::Check { generation }).run(events) is Finished,
    ensures
        ({
            let start = StopIfIdle::<V, S>::Check { generation };
            let result = start.run(events)->result;
            ||| {
                &&& events.len() == 4
                &&& events[2] matches IdleEvent::Taken(IdleTake::Taken(Some(vm)))
                &&& start.run(events.take(3)) == (StopIfIdle::<V, S>::Terminate { vm })
                &&& events[3] == IdleEvent::<V, S>::Terminated(result)
            }
            ||| {
                &&& result is Ok
                &&& events.len() == 1 && events[0] == IdleEvent::<V, S>::Checked(false)
            }
            ||| {
                &&& result is Ok
                &&& events.len() == 3
                &&& events[2] is Taken
                &&& events[2]->Taken_0 is Cancelled || events[2]->Taken_0 == IdleTake::<V>::Taken(
                    None,
                )
            }
        }),
{
    lemma_idle_steps(generation, events);
}

/// Goes through the steps of an idle shutdown, of which there are at most four.
proof fn lemma_idle_steps<V, S>(generation: u64, events: Seq<IdleEvent<V, S>>)
    requires
        (StopIfIdle::<V, S>::Check { generation }).answers(events),
    ensures
        ({
            let start = StopIfIdle::<V, S>::Check { generation };
            &&& events.len() <= 4
            &&& events.len() == 0 ==> start.run(events) == start
            &&& events.len() >= 1 ==> events[0] is Checked
            &&& events.len() == 1 ==> start.run(events) == start.next(events[0])
            &&& events.len() >= 2 ==> events[0] == IdleEvent::<V, S>::Checked(true)
                && events[1] is LifecycleLocked
            &&& events.len() == 2 ==> start.run(events) == (StopIfIdle::<V, S>::Take { generation })
            &&& events.len() >= 3 ==> events[2] is Taken && start.run(events.take(3)) == (
            StopIfIdle::<V, S>::Take { generation }).next(events[2])
            &&& events.len() >= 4 ==> {
                &&& events[2]->Taken_0 matches IdleTake::Taken(Some(vm))
                &&& events[3] is Terminated
                &&& start.run(events) == (StopIfIdle::<V, S>::Finished {
                    result: events[3]->Terminated_0,
                })
            }
            &&& start.run(events) == start.run(events.take(events.len() as int))
        }),
{
    let start = StopIfIdle::<V, S>::Check { generation };
    let n = events.len() as int;
    assert(events.take(n) =~= events);
    if n >= 1 {
        lemma_idle_step(start, events, 0);
    }
    if n >= 2 {
        lemma_idle_step(start, events, 1);
    }
    if n >= 3 {
        lemma_idle_step(start, events, 2);
    }
    if n >= 4 {
        lemma_idle_step(start, events, 3);
    }
    if n >= 5 {
        lemma_idle_step(start, events, 4);
    }
}

proof fn lemma_idle_step<V, S>(start: StopIfIdle<V, S>, events: Seq<IdleEvent<V, S>>, i: int)
    requires
        start.answers(events),
        0 <= i < events.len(),
    ensures
        start.run(events.take(0)) == start,
        start.run(events.take(i)).answered_by(events[i]),
        start.run(events.take(i + 1)) == start.run(events.take(i)).next(events[i]),
{
    assert(events.take(i + 1).drop_last() =~= events.take(i));
    assert(start.run(events.take(i)).answered_by(events[i]));
}

/// A VM that is found running is left alone, and making sure that one runs has
/// succeeded. One that cannot be inspected ends it with that failure. What is
/// left of one that has stopped is terminated, all of it and whatever that comes
/// to, before a new one is started; where there is none, one is started at once.
pub proof fn finding_decides_what_is_done<V, S>(
    found: VmCheck<V, S>,
    stopped: Result<(), Error<S>>,
)
    ensures
        ({
            let examining = EnsureVm::<V, S>::next(EnsureEvent::LifecycleLocked);
            let step = EnsureVm::<V, S>::next(EnsureEvent::Examined(found));
            &&& examining is Examine
            &&& found is Running <==> (step matches EnsureVm::Finished { result: Ok(_) })
            &&& found matches VmCheck::Failed(error) ==> step == (EnsureVm::<V, S>::Finished {
                result: Err(error),
            })
            &&& found is Failed <==> (step matches EnsureVm::Finished { result: Err(_) })
            &&& found matches VmCheck::Stale(vm) ==> step == (EnsureVm::<V, S>::StopStale { vm })
            &&& found is Stale <==> step is StopStale
            &&& found is Absent <==> step is Start
            &&& EnsureVm::<V, S>::next(EnsureEvent::StaleStopped(stopped)) is Start
        }),
{
}

/// What a start comes to is what making sure that a VM runs comes to: a VM that
/// was started is put into the state, that very one, and then all has succeeded;
/// a start that failed is the failure, of whatever kind.
pub proof fn start_decides_the_outcome<V, S>(started: Result<V, Error<S>>)
    ensures
        started matches Ok(vm) ==> {
            &&& EnsureVm::<V, S>::next(EnsureEvent::Started(started)) == (EnsureVm::<
                V,
                S,
            >::Install { vm })
            &&& EnsureVm::<V, S>::next(EnsureEvent::Installed) matches EnsureVm::Finished { result }
            &&& result is Ok
        },
        started matches Err(error) ==> EnsureVm::<V, S>::next(EnsureEvent::Started(started)) == (
        EnsureVm::<V, S>::Finished { result: Err(error) }),
{
}

/// Making sure that a VM runs succeeds without a start exactly if the state
/// holds a VM and both of its processes were polled as running. Where it holds
/// one of which a process has ended, that very VM is terminated and a new one
/// started, however many connections there are.
pub proof fn success_without_start_means_both_run<V, S>(
    state: State<V>,
    gvproxy: Result<Option<ExitStatus>, S>,
    runner: Result<Option<ExitStatus>, S>,
)
    ensures
        ({
            let inspected = VmInspection::<S>::PollGvproxy.next(gvproxy).next(runner);
            let found = state.check(inspected->result);
            let step = EnsureVm::<V, S>::next(EnsureEvent::Examined(found));
            let alive = Ok::<Option<ExitStatus>, S>(None);
            &&& (step matches EnsureVm::Finished { result: Ok(_) }) <==> {
                &&& state.vm is Some
                &&& gvproxy == alive
                &&& runner == alive
            }
            &&& state.vm is None <==> step is Start
            &&& state.vm matches Some(vm) ==> {
                ||| gvproxy matches Ok(Some(_))
                ||| gvproxy == alive && runner matches Ok(Some(_))
            } ==> step == (EnsureVm::<V, S>::StopStale { vm })
        }),
{
}

/// Stopping the VM takes whatever VM there is, with the lock held, and
/// terminates that very one. What the termination comes to, success or failure,
/// is what stopping comes to; where there is no VM it succeeds.
pub proof fn stopping_comes_to_its_termination<V, S>(
    taken: Option<V>,
    terminated: Result<(), Error<S>>,
)
    ensures
        StopVm::<V, S>::next(StopEvent::LifecycleLocked) is Take,
        taken matches Some(vm) ==> StopVm::<V, S>::next(StopEvent::Taken(taken)) == (StopVm::<
            V,
            S,
        >::Terminate { vm }),
        taken is None ==> StopVm::<V, S>::next(StopEvent::Taken(taken)) == (StopVm::<
            V,
            S,
        >::Finished { result: Ok(()) }),
        StopVm::<V, S>::next(StopEvent::Terminated(terminated)) == (StopVm::<V, S>::Finished {
            result: terminated,
        }),
{
}

/// An idle shutdown of a VM that stays idle, from the first look to the second,
/// terminates the VM that the state holds then; one that was overtaken, by a
/// connection or a change of the generation, before either look, terminates
/// nothing and succeeds. What a termination comes to is what the shutdown comes
/// to.
pub proof fn idle_stop_goes_by_its_two_looks<V, S>(
    generation: u64,
    first: State<V>,
    second: State<V>,
    terminated: Result<(), Error<S>>,
)
    ensures
        ({
            let idle = |state: State<V>|
                state.active_connections == 0 && state.idle_generation == generation;
            let looked = (StopIfIdle::<V, S>::Check { generation }).next(
                IdleEvent::Checked(first.idle_since(generation)),
            );
            let took = looked.next(IdleEvent::LifecycleLocked).next(
                IdleEvent::Taken(second.taken_if_idle(generation)),
            );
            let end = took.next(IdleEvent::Terminated(terminated));
            &&& idle(first) ==> looked == (StopIfIdle::<V, S>::LockLifecycle { generation })
            &&& idle(first) ==> looked.next(IdleEvent::LifecycleLocked) == (StopIfIdle::<
                V,
                S,
            >::Take { generation })
            &&& took is Terminate <==> idle(first) && idle(second) && second.vm is Some
            &&& took matches StopIfIdle::Terminate { vm } ==> {
                &&& second.vm == Some(vm)
                &&& end == (StopIfIdle::<V, S>::Finished { result: terminated })
            }
            &&& !(took is Terminate) ==> {
                &&& took == (StopIfIdle::<V, S>::Finished { result: Ok(()) })
                &&& end == took
            }
            &&& !idle(first) ==> looked is Finished
        }),
{
}

/// An idle shutdown moves on with every answer to its step, and with nothing
/// else.
pub proof fn only_answers_move_an_idle_stop<V, S>(step: StopIfIdle<V, S>, event: IdleEvent<V, S>)
    ensures
        step.next(event) != step <==> match event {
            IdleEvent::Checked(_) => step is Check,
            IdleEvent::LifecycleLocked => step is LockLifecycle,
            IdleEvent::Taken(_) => step is Take,
            IdleEvent::Terminated(_) => step is Terminate,
        },
{
}

} // verus!
