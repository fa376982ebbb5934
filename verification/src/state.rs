//! What the daemon remembers: the VM, the connections, and the generation that
//! tells scheduled idle shutdowns apart.

use crate::config::Config;
use crate::error::Error;
use crate::time::Duration;
use vstd::prelude::*;

verus! {

/// The daemon's state. `V` stands for the processes of a VM.
#[derive(Debug, PartialEq, Eq)]
pub struct State<V> {
    pub vm: Option<V>,
    pub active_connections: usize,
    /// Incrementing this invalidates previously scheduled idle shutdowns.
    pub idle_generation: u64,
}

/// An idle shutdown to be attempted once `delay` has passed.
#[derive(Clone, Copy, Debug, PartialEq, Eq)]
pub struct IdleShutdown {
    pub generation: u64,
    pub delay: Duration,
}

/// What became of an attempt at an idle shutdown.
#[derive(Debug, PartialEq, Eq)]
pub enum IdleTake<V> {
    /// A connection is open, or the generation has changed.
    Cancelled,
    /// The state no longer holds a VM; this is the one it held, if any.
    Taken(Option<V>),
}

/// What was found of the VM where one is needed.
#[derive(Debug, PartialEq, Eq)]
pub enum VmCheck<V, S> {
    /// It could not be inspected.
    Failed(Error<S>),
    /// It runs.
    Running,
    /// There is none.
    Absent,
    /// It had stopped running; the state no longer holds it.
    Stale(V),
}

/// The generation after `generation`, beginning anew after the largest.
pub open spec fn next_generation(generation: u64) -> u64 {
    if generation == u64::MAX {
        0
    } else {
        (generation + 1) as u64
    }
}

impl<V> State<V> {
    /// The state with the generation incremented.
    pub open spec fn bumped(self) -> Self {
        State { idle_generation: next_generation(self.idle_generation), ..self }
    }

    /// The state after one more connection.
    pub open spec fn opened(self) -> Self {
        State { active_connections: (self.active_connections + 1) as usize, ..self.bumped() }
    }

    /// How many connections are left once one has closed.
    pub open spec fn connections_left(self) -> usize {
        if self.active_connections == 0 {
            0
        } else {
            (self.active_connections - 1) as usize
        }
    }

    /// The state after a connection has closed. The generation changes where
    /// that leaves none.
    pub open spec fn closed(self) -> Self {
        let left = self.connections_left();
        if left == 0 {
            State { active_connections: left, ..self.bumped() }
        } else {
            State { active_connections: left, ..self }
        }
    }

    /// Whether an idle shutdown scheduled for `generation` may go ahead.
    pub open spec fn idle_since(self, generation: u64) -> bool {
        self.active_connections == 0 && self.idle_generation == generation
    }

    /// What an idle shutdown scheduled for `generation` takes.
    pub open spec fn taken_if_idle(self, generation: u64) -> IdleTake<V> {
        if self.idle_since(generation) {
            IdleTake::Taken(self.vm)
        } else {
            IdleTake::Cancelled
        }
    }

    /// The state without a VM.
    pub open spec fn without_vm(self) -> Self {
        State { vm: None, ..self }
    }

    pub fn new() -> (state: Self)
        ensures
            state.vm is None,
            state.active_connections == 0,
            state.idle_generation == 0,
    {
        State { vm: None, active_connections: 0, idle_generation: 0 }
    }

    /// Takes note of a new connection.
    pub fn connection_opened(&mut self)
        requires
            old(self).active_connections < usize::MAX,
        ensures
            *final(self) == old(self).after(Change::Opened),
    {
        self.active_connections = self.active_connections + 1;
        self.idle_generation = self.idle_generation.wrapping_add(1);
    }

    /// Takes note that a connection has closed. If it was the last one, the
    /// VM is to be stopped once it has been idle for the configured time.
    pub fn connection_closed(&mut self, config: &Config) -> (scheduled: Option<IdleShutdown>)
        ensures
            *final(self) == old(self).after(Change::Closed),
            scheduled == if old(self).connections_left() == 0 {
                Some(
                    IdleShutdown {
                        generation: next_generation(old(self).idle_generation),
                        delay: config.idle_timeout,
                    },
                )
            } else {
                None::<IdleShutdown>
            },
    {
        self.active_connections = self.active_connections.saturating_sub(1);
        if self.active_connections != 0 {
            return None;
        }
        self.idle_generation = self.idle_generation.wrapping_add(1);
        Some(IdleShutdown { generation: self.idle_generation, delay: config.idle_timeout })
    }

    /// Whether an idle shutdown scheduled for `generation` may go ahead.
    pub fn is_idle_since(&self, generation: u64) -> (idle: bool)
        ensures
            idle == self.idle_since(generation),
    {
        self.active_connections == 0 && self.idle_generation == generation
    }

    /// Takes the VM out of the state if it may be stopped for idleness.
    pub fn take_if_idle(&mut self, generation: u64) -> (taken: IdleTake<V>)
        ensures
            *final(self) == old(self).after(Change::TakenIfIdle(generation)),
            taken == old(self).taken_if_idle(generation),
    {
        if self.active_connections != 0 || self.idle_generation != generation {
            return IdleTake::Cancelled;
        }
        IdleTake::Taken(self.vm.take())
    }

    /// Takes the VM out of the state, whether or not it is idle, and
    /// invalidates the idle shutdowns scheduled so far.
    pub fn take_to_stop(&mut self) -> (vm: Option<V>)
        ensures
            vm == old(self).vm,
            *final(self) == old(self).after(Change::TakenToStop),
    {
        self.idle_generation = self.idle_generation.wrapping_add(1);
        self.vm.take()
    }

    /// What is found of the VM, where `running` says whether the one that the
    /// state holds runs. It does not matter where the state holds none.
    pub open spec fn check<S>(self, running: Result<bool, Error<S>>) -> VmCheck<V, S> {
        match (self.vm, running) {
            (None, _) => VmCheck::Absent,
            (Some(_), Err(error)) => VmCheck::Failed(error),
            (Some(_), Ok(true)) => VmCheck::Running,
            (Some(vm), Ok(false)) => VmCheck::Stale(vm),
        }
    }

    /// Finds out what there is of the VM, and takes it out of the state if it
    /// has stopped running.
    pub fn take_stale<S>(&mut self, running: Result<bool, Error<S>>) -> (found: VmCheck<V, S>)
        ensures
            found == old(self).check(running),
            found is Stale ==> *final(self) == old(self).after(Change::TakenAsStale),
            !(found is Stale) ==> *final(self) == *old(self),
    {
        if self.vm.is_none() {
            return VmCheck::Absent;
        }
        match running {
            Err(error) => VmCheck::Failed(error),
            Ok(true) => VmCheck::Running,
            Ok(false) => match self.vm.take() {
                Some(vm) => VmCheck::Stale(vm),
                None => VmCheck::Absent,
            },
        }
    }

    /// Puts a started VM into the state.
    pub fn install(&mut self, vm: V)
        ensures
            *final(self) == old(self).after(Change::Installed(vm)),
    {
        self.vm = Some(vm);
    }
}

/// The ways in which the state changes.
pub enum Change<V> {
    Opened,
    Closed,
    /// The VM is taken because it has been idle since this generation, if it has.
    TakenIfIdle(u64),
    /// The VM is taken because it has to stop.
    TakenToStop,
    /// The VM is taken because it has stopped running.
    TakenAsStale,
    Installed(V),
}

impl<V> State<V> {
    pub open spec fn after(self, change: Change<V>) -> Self {
        match change {
            Change::Opened => self.opened(),
            Change::Closed => self.closed(),
            Change::TakenIfIdle(generation) => if self.idle_since(generation) {
                self.without_vm()
            } else {
                self
            },
            Change::TakenToStop => self.bumped().without_vm(),
            Change::TakenAsStale => self.without_vm(),
            Change::Installed(vm) => State { vm: Some(vm), ..self },
        }
    }

    /// The state after all of `changes`, in order.
    pub open spec fn after_all(self, changes: Seq<Change<V>>) -> Self
        decreases changes.len(),
    {
        if changes.len() == 0 {
            self
        } else {
            self.after_all(changes.drop_last()).after(changes.last())
        }
    }

    /// Whether a change increments the generation: a connection opens, the last
    /// one closes, or the VM has to stop.
    pub open spec fn invalidated_by(self, change: Change<V>) -> bool {
        match change {
            Change::Opened => true,
            Change::Closed => self.connections_left() == 0,
            Change::TakenToStop => true,
            _ => false,
        }
    }

    /// How often the generation is incremented in the course of `changes`.
    pub open spec fn invalidations(self, changes: Seq<Change<V>>) -> nat
        decreases changes.len(),
    {
        if changes.len() == 0 {
            0
        } else {
            let earlier = self.invalidations(changes.drop_last());
            if self.after_all(changes.drop_last()).invalidated_by(changes.last()) {
                earlier + 1
            } else {
                earlier
            }
        }
    }
}

/// The number of generations.
pub const GENERATIONS: u128 = 0x1_0000_0000_0000_0000;

/// The generation counts the changes that increment it, modulo the number of
/// generations.
pub proof fn generation_counts_invalidations<V>(state: State<V>, changes: Seq<Change<V>>)
    ensures
        state.after_all(changes).idle_generation == (state.idle_generation + state.invalidations(
            changes,
        )) % (GENERATIONS as int),
    decreases changes.len(),
{
    if changes.len() > 0 {
        generation_counts_invalidations(state, changes.drop_last());
    }
}

/// An idle shutdown is cancelled by any change that increments the generation
/// after it was scheduled: it finds itself outdated, and leaves the state as it
/// is. This fails only where the generation has been incremented so often that
/// it has come back to its value.
pub proof fn later_changes_cancel_idle_shutdown<V>(
    state: State<V>,
    changes: Seq<Change<V>>,
    generation: u64,
)
    requires
        state.idle_generation == generation,
        0 < state.invalidations(changes) < GENERATIONS,
    ensures
        !state.after_all(changes).idle_since(generation),
        state.after_all(changes).after(Change::TakenIfIdle(generation)) == state.after_all(changes),
{
    generation_counts_invalidations(state, changes);
    let sum = state.idle_generation + state.invalidations(changes);
    if sum >= GENERATIONS {
        assert(sum % (GENERATIONS as int) == sum - GENERATIONS) by (nonlinear_arith)
            requires
                GENERATIONS <= sum < 2 * GENERATIONS,
                GENERATIONS == 0x1_0000_0000_0000_0000,
        ;
    } else {
        assert(sum % (GENERATIONS as int) == sum) by (nonlinear_arith)
            requires
                0 <= sum < GENERATIONS,
                GENERATIONS == 0x1_0000_0000_0000_0000,
        ;
    }
}

/// An idle shutdown that no change has outdated goes ahead: once the last
/// connection has closed, the VM is taken by the shutdown scheduled then, if no
/// change in between increments the generation.
pub proof fn undisturbed_idle_shutdown_goes_ahead<V>(state: State<V>, changes: Seq<Change<V>>)
    requires
        state.connections_left() == 0,
        state.closed().invalidations(changes) == 0,
    ensures
        ({
            let generation = next_generation(state.idle_generation);
            let later = state.closed().after_all(changes);
            &&& later.idle_since(generation)
            &&& later.after(Change::TakenIfIdle(generation)).vm is None
        }),
    decreases changes.len(),
{
    if changes.len() > 0 {
        undisturbed_idle_shutdown_goes_ahead(state, changes.drop_last());
    }
}

/// No idle shutdown takes the VM while a connection is open.
pub proof fn open_connections_keep_the_vm<V>(state: State<V>, generation: u64)
    requires
        state.active_connections > 0,
    ensures
        state.after(Change::TakenIfIdle(generation)) == state,
{
}

/// How many more connections have opened than closed in the course of `changes`.
pub open spec fn net_opened<V>(changes: Seq<Change<V>>) -> int
    decreases changes.len(),
{
    if changes.len() == 0 {
        0
    } else {
        let earlier = net_opened(changes.drop_last());
        match changes.last() {
            Change::Opened => earlier + 1,
            Change::Closed => earlier - 1,
            _ => earlier,
        }
    }
}

/// The state counts the open connections: as long as no connection closes that
/// had not opened, the count is what has opened less what has closed.
pub proof fn active_connections_are_counted<V>(state: State<V>, changes: Seq<Change<V>>)
    requires
        forall|n: int|
            0 <= n <= changes.len() ==> 0 <= state.active_connections + #[trigger] net_opened(
                changes.take(n),
            ) <= usize::MAX,
    ensures
        state.after_all(changes).active_connections == state.active_connections + net_opened(
            changes,
        ),
    decreases changes.len(),
{
    assert(changes.take(changes.len() as int) =~= changes);
    if changes.len() > 0 {
        let earlier = changes.drop_last();
        assert forall|n: int| 0 <= n <= earlier.len() implies 0 <= state.active_connections
            + #[trigger] net_opened(earlier.take(n)) <= usize::MAX by {
            assert(earlier.take(n) =~= changes.take(n));
        }
        active_connections_are_counted(state, earlier);
        assert(changes.take(earlier.len() as int) =~= earlier);
    }
}

/// Connections that open and close leave the VM alone. So what a task that may
/// start and stop VMs has found of it stays true until that task changes it.
pub proof fn connections_leave_the_vm_alone<V>(state: State<V>, changes: Seq<Change<V>>)
    requires
        forall|i: int|
            0 <= i < changes.len() ==> #[trigger] changes[i] is Opened || changes[i] is Closed,
    ensures
        state.after_all(changes).vm == state.vm,
    decreases changes.len(),
{
    if changes.len() > 0 {
        let earlier = changes.drop_last();
        assert forall|i: int| 0 <= i < earlier.len() implies #[trigger] earlier[i] is Opened
            || earlier[i] is Closed by {
            assert(earlier[i] == changes[i]);
        }
        connections_leave_the_vm_alone(state, earlier);
        assert(changes.last() == changes[changes.len() - 1]);
    }
}

/// What is found of the VM depends on whether the state holds one and on what
/// polling it said, and on nothing else: whatever the connections and whatever
/// the generation. A VM that is held and runs is found running, and only such a
/// one; a VM that is held and does not run is found stale, that very one; and
/// that a VM cannot be polled is no finding but a failure.
pub proof fn finding_follows_the_poll<V, S>(state: State<V>, running: Result<bool, Error<S>>)
    ensures
        state.check(running) is Absent <==> state.vm is None,
        state.check(running) is Running <==> state.vm is Some && running == Ok::<bool, Error<S>>(
            true,
        ),
        state.check(running) is Stale <==> state.vm is Some && running == Ok::<bool, Error<S>>(
            false,
        ),
        state.check(running) matches VmCheck::Stale(vm) ==> state.vm == Some(vm),
        state.vm is Some ==> (running matches Err(error) ==> state.check(running)
            == VmCheck::<V, S>::Failed(error)),
{
}

/// Two states that hold the same VM find the same of it.
pub proof fn finding_ignores_connections<V, S>(
    one: State<V>,
    other: State<V>,
    running: Result<bool, Error<S>>,
)
    requires
        one.vm == other.vm,
    ensures
        one.check(running) == other.check(running),
{
}

/// How each change affects the connections: one more, one fewer but never below
/// none, or none at all.
pub proof fn changes_count_connections<V>(state: State<V>, change: Change<V>)
    requires
        state.active_connections < usize::MAX,
    ensures
        ({
            let difference = state.after(change).active_connections - state.active_connections;
            match change {
                Change::Opened => difference == 1,
                Change::Closed => difference == if state.active_connections == 0 {
                    0int
                } else {
                    -1int
                },
                _ => difference == 0,
            }
        }),
        state.connections_left() == state.after(Change::Closed).active_connections,
{
}

/// How each change affects the VM: one is put in by being installed; an idle
/// shutdown takes it out exactly if no connection is open and the generation is
/// still that of the shutdown; to stop it, or because it has stopped, it is taken
/// out in any case; and connections leave it alone.
pub proof fn changes_move_the_vm<V>(state: State<V>, change: Change<V>)
    ensures
        ({
            let after = state.after(change);
            match change {
                Change::Opened | Change::Closed => after.vm == state.vm,
                Change::TakenIfIdle(generation) => {
                    let idle = state.active_connections == 0 && state.idle_generation
                        == generation;
                    &&& idle ==> after.vm is None
                    &&& !idle ==> after == state
                },
                Change::TakenToStop | Change::TakenAsStale => after.vm is None,
                Change::Installed(vm) => after.vm == Some(vm),
            }
        }),
{
}

/// The generation is incremented, by one and beginning anew after the largest,
/// when a connection opens, when the last one closes and when the VM has to stop.
/// Nothing else changes it.
pub proof fn changes_count_generations<V>(state: State<V>, change: Change<V>)
    ensures
        ({
            let before = state.idle_generation;
            let after = state.after(change).idle_generation;
            let counted = match change {
                Change::Opened => true,
                Change::Closed => state.active_connections <= 1,
                Change::TakenToStop => true,
                _ => false,
            };
            if !counted {
                after == before
            } else if before == 0xffff_ffff_ffff_ffff {
                after == 0
            } else {
                after == before + 1
            }
        }),
        next_generation(state.idle_generation) == state.after(Change::TakenToStop).idle_generation,
{
}

/// An idle shutdown gets the VM that the state holds, if there is one, exactly if
/// no connection is open and the generation is still its own. Otherwise it is
/// cancelled.
pub proof fn idle_shutdown_takes_what_is_idle<V>(state: State<V>, generation: u64)
    ensures
        ({
            let idle = state.active_connections == 0 && state.idle_generation == generation;
            &&& state.idle_since(generation) <==> idle
            &&& idle ==> state.taken_if_idle(generation) == IdleTake::<V>::Taken(state.vm)
            &&& !idle ==> state.taken_if_idle(generation) is Cancelled
        }),
{
}

/// The shutdown that the last connection to close has scheduled is for the
/// generation that the state has from then on: were it attempted at once, it
/// would go ahead. Before the last connection has closed none is scheduled.
pub proof fn scheduled_shutdown_is_for_the_new_generation<V>(state: State<V>)
    ensures
        state.connections_left() == 0 <==> state.active_connections <= 1,
        state.connections_left() == 0 ==> {
            let after = state.after(Change::Closed);
            &&& next_generation(state.idle_generation) == after.idle_generation
            &&& after.active_connections == 0
        },
{
}

} // verus!
