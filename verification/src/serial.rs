//! What holds of the daemon as a whole, whatever tasks run, whatever connections
//! are served and however they interleave: VMs are started and stopped one at a
//! time, the active connections are counted, and they keep the VM from being
//! stopped for idleness.
//!
//! Any number of tasks may be at work at once, each at some step of its own, and
//! any number of connections be served. A task that has acquired the lifecycle
//! lock keeps it until it has finished.

use crate::connection::{ProxyConnection, ProxyEvent};
use crate::error::Error;
use crate::lifecycle::{EnsureEvent, EnsureVm, IdleEvent, StopEvent, StopIfIdle, StopVm};
use crate::state::{Change, IdleTake, State};
use vstd::prelude::*;

verus! {

/// A task that may start or stop VMs, and the step that it is at.
pub enum Task<V, S> {
    Ensure(EnsureVm<V, S>),
    Stop(StopVm<V, S>),
    Idle(StopIfIdle<V, S>),
}

impl<V, S> Task<V, S> {
    /// Whether the task has not done anything yet.
    pub open spec fn is_new(self) -> bool {
        match self {
            Task::Ensure(step) => step is LockLifecycle,
            Task::Stop(step) => step is LockLifecycle,
            Task::Idle(step) => step is Check,
        }
    }

    /// Whether the task starts, stops, takes or installs a VM at its step.
    pub open spec fn touches_vm(self) -> bool {
        match self {
            Task::Ensure(step) => step.touches_vm(),
            Task::Stop(step) => step.touches_vm(),
            Task::Idle(step) => step.touches_vm(),
        }
    }

    /// Whether the task is past taking the VM out of the state, or past finding
    /// none there.
    pub open spec fn emptied_state(self) -> bool {
        match self {
            Task::Ensure(step) => step is StopStale || step is Start || step is Install,
            Task::Stop(step) => step is Terminate,
            Task::Idle(step) => step is Terminate,
        }
    }
}

/// The daemon's state, the task that holds the lifecycle lock, all tasks, and
/// all connections, each with the step that serving it is at.
pub struct System<V, S> {
    pub state: State<V>,
    pub holder: Option<int>,
    pub tasks: Map<int, Task<V, S>>,
    pub connections: Map<int, ProxyConnection<S>>,
}

impl<V, S> System<V, S> {
    /// The connections that have been noted as opened, and not yet as closed.
    pub open spec fn active(self) -> Set<int> {
        Set::new(
            |id: int| self.connections.contains_key(id) && self.connections[id].is_active(),
        )
    }

    /// The holder of the lock once task `id` has come to a step.
    pub open spec fn holder_after(self, id: int, locked: bool, finished: bool) -> Option<int> {
        if locked {
            Some(id)
        } else if finished && self.holder == Some(id) {
            None
        } else {
            self.holder
        }
    }

    /// Whether `after` follows as task `id`, at `step` of making sure that a
    /// VM runs, gets the answer `event`.
    pub open spec fn ensure_moves(
        self,
        after: Self,
        id: int,
        step: EnsureVm<V, S>,
        event: EnsureEvent<V, S>,
    ) -> bool {
        let next = EnsureVm::next(event);
        &&& self.tasks.contains_key(id)
        &&& self.tasks[id] == Task::Ensure(step)
        &&& step.answered_by(event)
        &&& event is LifecycleLocked ==> self.holder is None
        &&& after.tasks == self.tasks.insert(id, Task::Ensure(next))
        &&& after.holder == self.holder_after(id, event is LifecycleLocked, next is Finished)
        &&& after.connections == self.connections
        &&& match (step, event) {
            (EnsureVm::Examine, EnsureEvent::Examined(found)) => {
                &&& exists|running: Result<bool, Error<S>>| found == #[trigger]
                    self.state.check(running)
                &&& after.state == if found is Stale {
                    self.state.after(Change::TakenAsStale)
                } else {
                    self.state
                }
            },
            (EnsureVm::Install { vm }, _) => after.state == self.state.after(Change::Installed(vm)),
            _ => after.state == self.state,
        }
    }

    /// Whether `after` follows as task `id`, at `step` of stopping the VM, gets
    /// the answer `event`.
    pub open spec fn stop_moves(
        self,
        after: Self,
        id: int,
        step: StopVm<V, S>,
        event: StopEvent<V, S>,
    ) -> bool {
        let next = StopVm::next(event);
        &&& self.tasks.contains_key(id)
        &&& self.tasks[id] == Task::Stop(step)
        &&& step.answered_by(event)
        &&& event is LifecycleLocked ==> self.holder is None
        &&& after.tasks == self.tasks.insert(id, Task::Stop(next))
        &&& after.holder == self.holder_after(id, event is LifecycleLocked, next is Finished)
        &&& after.connections == self.connections
        &&& match event {
            StopEvent::Taken(taken) => {
                &&& taken == self.state.vm
                &&& after.state == self.state.after(Change::TakenToStop)
            },
            _ => after.state == self.state,
        }
    }

    /// Whether `after` follows as task `id`, at `step` of an idle shutdown, gets
    /// the answer `event`.
    pub open spec fn idle_moves(
        self,
        after: Self,
        id: int,
        step: StopIfIdle<V, S>,
        event: IdleEvent<V, S>,
    ) -> bool {
        let next = step.next(event);
        &&& self.tasks.contains_key(id)
        &&& self.tasks[id] == Task::Idle(step)
        &&& step.answered_by(event)
        &&& event is LifecycleLocked ==> self.holder is None
        &&& after.tasks == self.tasks.insert(id, Task::Idle(next))
        &&& after.holder == self.holder_after(id, event is LifecycleLocked, next is Finished)
        &&& after.connections == self.connections
        &&& match (step, event) {
            (StopIfIdle::Check { generation }, IdleEvent::Checked(idle)) => {
                &&& idle == self.state.idle_since(generation)
                &&& after.state == self.state
            },
            (StopIfIdle::Take { generation }, IdleEvent::Taken(taken)) => {
                &&& taken == self.state.taken_if_idle(generation)
                &&& after.state == self.state.after(Change::TakenIfIdle(generation))
            },
            _ => after.state == self.state,
        }
    }

    /// Whether `after` follows as the serving of connection `id`, at `step`, gets
    /// the answer `event`.
    pub open spec fn connection_moves(
        self,
        after: Self,
        id: int,
        step: ProxyConnection<S>,
        event: ProxyEvent<S>,
    ) -> bool {
        &&& self.connections.contains_key(id)
        &&& self.connections[id] == step
        &&& step.answered_by(event)
        &&& event is Opened ==> self.state.active_connections < usize::MAX
        &&& after == (System {
            state: match event {
                ProxyEvent::Opened => self.state.after(Change::Opened),
                ProxyEvent::Closed => self.state.after(Change::Closed),
                _ => self.state,
            },
            connections: self.connections.insert(id, step.next(event)),
            ..self
        })
    }

    /// Whether `after` follows as the serving of a connection begins.
    pub open spec fn connection_begins(self, after: Self, id: int, port: u16) -> bool {
        &&& !self.connections.contains_key(id)
        &&& after == (System {
            connections: self.connections.insert(id, ProxyConnection::Open { port }),
            ..self
        })
    }

    /// Whether `after` follows as a task begins.
    pub open spec fn begins(self, after: Self, id: int, task: Task<V, S>) -> bool {
        &&& !self.tasks.contains_key(id)
        &&& task.is_new()
        &&& after == (System { tasks: self.tasks.insert(id, task), ..self })
    }

    /// Whether `after` can come right after `self`.
    pub open spec fn can_become(self, after: Self) -> bool {
        ||| exists|id: int, port: u16| #[trigger] self.connection_begins(after, id, port)
        ||| exists|id: int, step: ProxyConnection<S>, event: ProxyEvent<S>| #[trigger]
            self.connection_moves(after, id, step, event)
        ||| exists|id: int, task: Task<V, S>| #[trigger] self.begins(after, id, task)
        ||| exists|id: int, step: EnsureVm<V, S>, event: EnsureEvent<V, S>| #[trigger]
            self.ensure_moves(after, id, step, event)
        ||| exists|id: int, step: StopVm<V, S>, event: StopEvent<V, S>| #[trigger]
            self.stop_moves(after, id, step, event)
        ||| exists|id: int, step: StopIfIdle<V, S>, event: IdleEvent<V, S>| #[trigger]
            self.idle_moves(after, id, step, event)
    }

    /// A system in which nothing has happened yet.
    pub open spec fn is_initial(self) -> bool {
        &&& self.state.vm is None
        &&& self.state.active_connections == 0
        &&& self.holder is None
        &&& self.tasks == Map::<int, Task<V, S>>::empty()
        &&& self.connections == Map::<int, ProxyConnection<S>>::empty()
    }

    /// What holds of every system: the lock is held by a task, namely the one
    /// that touches VMs, and while it works with a VM outside of the state, or is
    /// about to start one, the state holds none. The active connections are counted.
    pub open spec fn is_serial(self) -> bool {
        &&& self.active().finite()
        &&& self.active().len() == self.state.active_connections
        &&& self.holder matches Some(id) ==> self.tasks.contains_key(id)
        &&& forall|id: int| #[trigger]
            self.tasks.contains_key(id) ==> (self.tasks[id].touches_vm() <==> self.holder == Some(
                id,
            ))
        &&& forall|id: int| #[trigger]
            self.tasks.contains_key(id) && self.tasks[id].emptied_state() ==> self.state.vm is None
    }
}

/// Whether each of `history` can come right after the one before it, from a
/// system in which nothing has happened yet.
pub open spec fn is_history<V, S>(history: Seq<System<V, S>>) -> bool {
    &&& history.len() > 0
    &&& history[0].is_initial()
    &&& forall|i: int|
        0 <= i < history.len() - 1 ==> (#[trigger] history[i]).can_become(history[i + 1])
}

proof fn lemma_stays_serial<V, S>(before: System<V, S>, after: System<V, S>)
    requires
        before.is_serial(),
        before.can_become(after),
    ensures
        after.is_serial(),
{
    lemma_active_connections_stay_counted(before, after);
}

proof fn lemma_active_connections_stay_counted<V, S>(before: System<V, S>, after: System<V, S>)
    requires
        before.active().finite(),
        before.active().len() == before.state.active_connections,
        before.can_become(after),
    ensures
        after.active().finite(),
        after.active().len() == after.state.active_connections,
{
    if exists|id: int, step: ProxyConnection<S>, event: ProxyEvent<S>| #[trigger]
        before.connection_moves(after, id, step, event) {
        let (id, step, event) = choose|id: int, step: ProxyConnection<S>, event: ProxyEvent<S>|
            #[trigger] before.connection_moves(after, id, step, event);
        if event is Opened {
            assert(after.active() =~= before.active().insert(id));
        } else if event is Closed {
            assert(after.active() =~= before.active().remove(id));
        } else {
            assert(after.active() =~= before.active());
        }
    } else {
        assert(after.active() =~= before.active());
    }
}

/// VMs are started and stopped one at a time: in every system that can come
/// about, whatever tasks run and however they interleave, only the task that
/// holds the lifecycle lock touches a VM.
pub proof fn vms_are_touched_one_task_at_a_time<V, S>(
    history: Seq<System<V, S>>,
    at: int,
    one: int,
    other: int,
)
    requires
        is_history(history),
        0 <= at < history.len(),
        history[at].tasks.contains_key(one),
        history[at].tasks[one].touches_vm(),
        history[at].tasks.contains_key(other),
        history[at].tasks[other].touches_vm(),
    ensures
        one == other,
        history[at].holder == Some(one),
{
    lemma_history_is_serial(history, at);
}

/// There is at most one VM: in every system that can come about, while a task
/// has one in hand to terminate or to install, or is about to start one, the
/// state holds none. So no VM in the state is ever replaced by another.
pub proof fn no_vm_is_replaced<V, S>(history: Seq<System<V, S>>, at: int, id: int)
    requires
        is_history(history),
        0 <= at < history.len(),
        history[at].tasks.contains_key(id),
        history[at].tasks[id].emptied_state(),
    ensures
        history[at].state.vm is None,
{
    lemma_history_is_serial(history, at);
}

impl<V, S> System<V, S> {
    /// Whether a task comes to start a VM, on the way to `after`.
    pub open spec fn begins_start(self, after: Self) -> bool {
        exists|id: int, step: EnsureVm<V, S>, event: EnsureEvent<V, S>| #[trigger]
            self.ensure_moves(after, id, step, event) && EnsureVm::next(event) is Start
    }

    /// Whether nothing goes wrong with a VM on the way to `after`: one that is
    /// in the state stays there and is found running, and a start succeeds.
    pub open spec fn goes_well(self, after: Self) -> bool {
        &&& self.state.vm is Some ==> after.state.vm is Some
        &&& forall|id: int, step: EnsureVm<V, S>, event: EnsureEvent<V, S>| #[trigger]
            self.ensure_moves(after, id, step, event) ==> match event {
                EnsureEvent::Examined(found) => self.state.vm is Some ==> found is Running,
                EnsureEvent::Started(started) => started is Ok,
                _ => true,
            }
    }

    /// What holds of a system where all has gone well and `starts` starts have
    /// begun: one start at most, which has left a VM in the state unless its
    /// task, with the lock held, is still at it.
    spec fn has_started(self, starts: nat) -> bool {
        &&& starts <= 1
        &&& self.state.vm is Some ==> starts == 1
        &&& starts == 1 && self.state.vm is None ==> {
            &&& self.holder matches Some(id)
            &&& self.tasks[id] matches Task::Ensure(step)
            &&& step is Start || step is Install
        }
        &&& forall|id: int| #[trigger]
            self.tasks.contains_key(id) ==> match self.tasks[id] {
                Task::Ensure(EnsureVm::StopStale { .. }) => false,
                Task::Ensure(EnsureVm::Start) => starts == 1,
                Task::Ensure(EnsureVm::Install { .. }) => starts == 1,
                Task::Ensure(EnsureVm::Finished { result }) => {
                    &&& result is Ok
                    &&& starts == 1
                    &&& self.state.vm is Some
                },
                _ => true,
            }
    }
}

/// How many starts of a VM have begun in the course of `history`.
pub open spec fn starts<V, S>(history: Seq<System<V, S>>) -> nat
    decreases history.len(),
{
    if history.len() < 2 {
        0
    } else {
        let before = history.drop_last();
        starts(before) + if before.last().begins_start(history.last()) {
            1nat
        } else {
            0nat
        }
    }
}

/// However many tasks make sure at once that a VM runs, and however they
/// interleave, they share one start. Where no VM is taken out of the state,
/// the one there is found running and starts succeed, at most one start begins,
/// no task fails, and once a task has finished there has been exactly one start
/// and the state holds a VM.
pub proof fn callers_share_one_start<V, S>(history: Seq<System<V, S>>)
    requires
        is_history(history),
        forall|i: int|
            0 <= i < history.len() - 1 ==> (#[trigger] history[i]).goes_well(history[i + 1]),
    ensures
        starts(history) <= 1,
        forall|id: int| #[trigger]
            history.last().tasks.contains_key(id) ==> match history.last().tasks[id] {
                Task::Ensure(EnsureVm::Finished { result }) => {
                    &&& result is Ok
                    &&& starts(history) == 1
                    &&& history.last().state.vm is Some
                },
                _ => true,
            },
{
    lemma_history_has_started(history);
}

proof fn lemma_history_has_started<V, S>(history: Seq<System<V, S>>)
    requires
        is_history(history),
        forall|i: int|
            0 <= i < history.len() - 1 ==> (#[trigger] history[i]).goes_well(history[i + 1]),
    ensures
        history.last().has_started(starts(history)),
    decreases history.len(),
{
    let n = history.len() as int;
    if n >= 2 {
        let before = history.drop_last();
        assert forall|i: int| 0 <= i < before.len() - 1 implies {
            &&& (#[trigger] before[i]).can_become(before[i + 1])
            &&& before[i].goes_well(before[i + 1])
        } by {
            assert(history[i].can_become(history[i + 1]));
        }
        lemma_history_has_started(before);
        lemma_history_is_serial(history, n - 2);
        assert(history[n - 2].can_become(history[n - 2 + 1]));
        lemma_start_begins_once(history[n - 2], history[n - 1], starts(before));
    }
}

proof fn lemma_start_begins_once<V, S>(before: System<V, S>, after: System<V, S>, starts: nat)
    requires
        before.is_serial(),
        before.can_become(after),
        before.goes_well(after),
        before.has_started(starts),
    ensures
        after.has_started(
            starts + if before.begins_start(after) {
                1nat
            } else {
                0nat
            },
        ),
{
}

/// No idle shutdown takes the VM while a connection is active, however the tasks
/// and the connections interleave: it finds itself cancelled.
pub proof fn idle_shutdown_spares_active_connections<V, S>(
    history: Seq<System<V, S>>,
    at: int,
    connection: int,
    after: System<V, S>,
    id: int,
    generation: u64,
    taken: IdleTake<V>,
)
    requires
        is_history(history),
        0 <= at < history.len(),
        history[at].connections.contains_key(connection),
        history[at].connections[connection].is_active(),
        history[at].idle_moves(
            after,
            id,
            StopIfIdle::Take { generation },
            IdleEvent::Taken(taken),
        ),
    ensures
        taken is Cancelled,
        after.state == history[at].state,
{
    lemma_history_is_serial(history, at);
    assert(history[at].active().contains(connection));
}

/// The daemon counts the connections that it serves, however they interleave
/// with one another and with the tasks: the count is the number of those whose
/// opening has been noted and whose closing has not. Once all connections have
/// been served to the end, it is zero.
pub proof fn active_connections_are_those_served<V, S>(history: Seq<System<V, S>>, at: int)
    requires
        is_history(history),
        0 <= at < history.len(),
    ensures
        history[at].active().finite(),
        history[at].state.active_connections == history[at].active().len(),
        (forall|id: int| #[trigger]
            history[at].connections.contains_key(id) ==> history[at].connections[id] is Finished)
            ==> history[at].state.active_connections == 0,
{
    lemma_history_is_serial(history, at);
    if forall|id: int| #[trigger]
        history[at].connections.contains_key(id) ==> history[at].connections[id] is Finished {
        assert(history[at].active() =~= Set::<int>::empty());
    }
}

proof fn lemma_history_is_serial<V, S>(history: Seq<System<V, S>>, at: int)
    requires
        is_history(history),
        0 <= at < history.len(),
    ensures
        history[at].is_serial(),
    decreases at,
{
    if at > 0 {
        lemma_history_is_serial(history, at - 1);
        assert(history[at - 1].can_become(history[at - 1 + 1]));
        lemma_stays_serial(history[at - 1], history[at]);
    } else {
        assert(history[at].active() =~= Set::<int>::empty());
    }
}

} // verus!
