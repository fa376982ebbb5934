//! Bringing up the processes of a VM, and taking them down.

use crate::builder::{
    builder_events, builder_wait_ends_with_first_verdict, builder_wait_goes_on,
    builder_wait_reports_what_was_seen, BuilderEvent, BuilderGoal, BuilderRound, BuilderWait,
};
use crate::config::Config;
use crate::error::{Error, ExitStatus, Program};
use crate::process::{ManagedChild, ProcessGroup, VmProcesses};
use crate::terminate::{
    grace_events, runs_through, stubborn_process_is_killed, GraceRound, Termination,
    TerminationEvent,
};
use crate::time::{deadline, deadline_after, Duration};
use crate::wait::{
    path_events, path_wait_ends_with_first_verdict, path_wait_reports_what_was_seen, PathEvent,
    PathGoal, PathRound, PathWait,
};
use vstd::prelude::*;
use vstd::slice::slice_to_vec;

verus! {

/// Something to be done for a VM, with all that it takes.
#[derive(Debug, PartialEq, Eq)]
pub enum VmTask {
    CreateDirectory { path: Vec<u8> },
    RemoveFile { path: Vec<u8> },
    Spawn { program: Program, executable: Vec<u8>, args: Vec<String> },
    WaitForPath { program: Program, path: Vec<u8>, deadline: u128 },
    WaitForBuilder { port: u16, deadline: u128 },
    Terminate { group: ProcessGroup, grace: Duration },
    Nothing,
}

/// The start of a VM, by what is to be done next. `C` is the platform's handle
/// of a process. The whole start has one deadline, a moment on the clock in
/// nanoseconds, which both of its waits keep to. An error that is held is the
/// one that the start has failed with.
#[derive(Debug, PartialEq, Eq)]
pub enum StartVm<C, S> {
    /// Create the runtime directory.
    CreateDirectory { deadline: u128 },
    /// Remove a socket that an earlier vfkit may have left.
    RemoveSocket { deadline: u128 },
    /// Spawn gvproxy.
    SpawnGvproxy { deadline: u128 },
    /// Wait until gvproxy has created vfkit's socket.
    AwaitSocket { deadline: u128, gvproxy: ManagedChild<C> },
    /// Spawn the runner.
    SpawnRunner { deadline: u128, gvproxy: ManagedChild<C> },
    /// Wait until the builder answers.
    AwaitBuilder { deadline: u128, gvproxy: ManagedChild<C>, runner: ManagedChild<C> },
    /// Terminate the runner, then gvproxy.
    StopRunner { gvproxy: ManagedChild<C>, runner: ManagedChild<C>, error: Error<S> },
    /// Terminate gvproxy.
    StopGvproxy { gvproxy: ManagedChild<C>, error: Error<S> },
    /// Nothing is left to do.
    Finished { result: Result<VmProcesses<C>, Error<S>> },
}

/// The answer to a step of a start.
#[derive(Debug, PartialEq, Eq)]
pub enum StartEvent<C, S> {
    /// What was done other than spawning came to this.
    Done(Result<(), Error<S>>),
    /// Spawning came to this.
    Spawned(Result<ManagedChild<C>, Error<S>>),
}

impl<C, S> StartVm<C, S> {
    /// The step after this one, given the answer to it. An answer to some
    /// other step changes nothing.
    pub open spec fn next(self, event: StartEvent<C, S>) -> Self {
        match (self, event) {
            (StartVm::CreateDirectory { deadline }, StartEvent::Done(result)) => match result {
                Ok(_) => StartVm::RemoveSocket { deadline },
                Err(error) => StartVm::Finished { result: Err(error) },
            },
            (StartVm::RemoveSocket { deadline }, StartEvent::Done(result)) => match result {
                Ok(_) => StartVm::SpawnGvproxy { deadline },
                Err(error) => StartVm::Finished { result: Err(error) },
            },
            (StartVm::SpawnGvproxy { deadline }, StartEvent::Spawned(result)) => match result {
                Ok(gvproxy) => StartVm::AwaitSocket { deadline, gvproxy },
                Err(error) => StartVm::Finished { result: Err(error) },
            },
            (StartVm::AwaitSocket { deadline, gvproxy }, StartEvent::Done(result)) => match result {
                Ok(_) => StartVm::SpawnRunner { deadline, gvproxy },
                Err(error) => StartVm::StopGvproxy { gvproxy, error },
            },
            (StartVm::SpawnRunner { deadline, gvproxy }, StartEvent::Spawned(result)) => {
                match result {
                    Ok(runner) => StartVm::AwaitBuilder { deadline, gvproxy, runner },
                    Err(error) => StartVm::StopGvproxy { gvproxy, error },
                }
            },
            (StartVm::AwaitBuilder { gvproxy, runner, .. }, StartEvent::Done(result)) => {
                match result {
                    Ok(_) => StartVm::Finished { result: Ok(VmProcesses { gvproxy, runner }) },
                    Err(error) => StartVm::StopRunner { gvproxy, runner, error },
                }
            },
            (StartVm::StopRunner { gvproxy, error, .. }, StartEvent::Done(_)) => {
                StartVm::StopGvproxy { gvproxy, error }
            },
            (StartVm::StopGvproxy { error, .. }, StartEvent::Done(_)) => {
                StartVm::Finished { result: Err(error) }
            },
            _ => self,
        }
    }

    /// The step that is reached once all of `events` have been taken, in order.
    pub open spec fn run(self, events: Seq<StartEvent<C, S>>) -> Self
        decreases events.len(),
    {
        if events.len() == 0 {
            self
        } else {
            self.run(events.drop_last()).next(events.last())
        }
    }

    pub fn advance(self, event: StartEvent<C, S>) -> (step: Self)
        ensures
            step == self.next(event),
    {
        match (self, event) {
            (StartVm::CreateDirectory { deadline }, StartEvent::Done(result)) => match result {
                Ok(_) => StartVm::RemoveSocket { deadline },
                Err(error) => StartVm::Finished { result: Err(error) },
            },
            (StartVm::RemoveSocket { deadline }, StartEvent::Done(result)) => match result {
                Ok(_) => StartVm::SpawnGvproxy { deadline },
                Err(error) => StartVm::Finished { result: Err(error) },
            },
            (StartVm::SpawnGvproxy { deadline }, StartEvent::Spawned(result)) => match result {
                Ok(gvproxy) => StartVm::AwaitSocket { deadline, gvproxy },
                Err(error) => StartVm::Finished { result: Err(error) },
            },
            (StartVm::AwaitSocket { deadline, gvproxy }, StartEvent::Done(result)) => match result {
                Ok(_) => StartVm::SpawnRunner { deadline, gvproxy },
                Err(error) => StartVm::StopGvproxy { gvproxy, error },
            },
            (StartVm::SpawnRunner { deadline, gvproxy }, StartEvent::Spawned(result)) => {
                match result {
                    Ok(runner) => StartVm::AwaitBuilder { deadline, gvproxy, runner },
                    Err(error) => StartVm::StopGvproxy { gvproxy, error },
                }
            },
            (StartVm::AwaitBuilder { gvproxy, runner, .. }, StartEvent::Done(result)) => {
                match result {
                    Ok(_) => StartVm::Finished { result: Ok(VmProcesses { gvproxy, runner }) },
                    Err(error) => StartVm::StopRunner { gvproxy, runner, error },
                }
            },
            (StartVm::StopRunner { gvproxy, error, .. }, StartEvent::Done(_)) => {
                StartVm::StopGvproxy { gvproxy, error }
            },
            (StartVm::StopGvproxy { error, .. }, StartEvent::Done(_)) => {
                StartVm::Finished { result: Err(error) }
            },
            (step, _) => step,
        }
    }

    /// Whether `task` is what this step asks for under `config`.
    pub open spec fn asks_for(self, config: Config, task: VmTask) -> bool {
        match self {
            StartVm::CreateDirectory { .. } => {
                &&& task matches VmTask::CreateDirectory { path }
                &&& path@ == config.runtime_dir@
            },
            StartVm::RemoveSocket { .. } => {
                &&& task matches VmTask::RemoveFile { path }
                &&& path@ == config.vfkit_socket@
            },
            StartVm::SpawnGvproxy { .. } => {
                &&& task matches VmTask::Spawn { program: Program::Gvproxy, executable, args }
                &&& executable@ == config.gvproxy@
                &&& config.starts_gvproxy_with(args@)
            },
            StartVm::AwaitSocket { deadline, .. } => {
                &&& task matches VmTask::WaitForPath {
                    program: Program::Gvproxy,
                    path,
                    deadline: limit,
                }
                &&& path@ == config.vfkit_socket@
                &&& limit == deadline
            },
            StartVm::SpawnRunner { .. } => {
                &&& task matches VmTask::Spawn { program: Program::Runner, executable, args }
                &&& executable@ == config.runner@
                &&& args@.len() == 0
            },
            StartVm::AwaitBuilder { deadline, .. } => task == (VmTask::WaitForBuilder {
                port: config.ssh_port,
                deadline,
            }),
            StartVm::StopRunner { runner, .. } => task == (VmTask::Terminate {
                group: runner.leads(),
                grace: config.stop_timeout,
            }),
            StartVm::StopGvproxy { gvproxy, .. } => task == (VmTask::Terminate {
                group: gvproxy.leads(),
                grace: config.stop_timeout,
            }),
            StartVm::Finished { .. } => task == VmTask::Nothing,
        }
    }

    pub fn task(&self, config: &Config) -> (task: VmTask)
        ensures
            self.asks_for(*config, task),
    {
        match self {
            StartVm::CreateDirectory { .. } => VmTask::CreateDirectory {
                path: slice_to_vec(config.runtime_dir.as_slice()),
            },
            StartVm::RemoveSocket { .. } => VmTask::RemoveFile {
                path: slice_to_vec(config.vfkit_socket.as_slice()),
            },
            StartVm::SpawnGvproxy { .. } => VmTask::Spawn {
                program: Program::Gvproxy,
                executable: slice_to_vec(config.gvproxy.as_slice()),
                args: config.gvproxy_args(),
            },
            StartVm::AwaitSocket { deadline, .. } => VmTask::WaitForPath {
                program: Program::Gvproxy,
                path: slice_to_vec(config.vfkit_socket.as_slice()),
                deadline: *deadline,
            },
            StartVm::SpawnRunner { .. } => VmTask::Spawn {
                program: Program::Runner,
                executable: slice_to_vec(config.runner.as_slice()),
                args: Vec::new(),
            },
            StartVm::AwaitBuilder { deadline, .. } => VmTask::WaitForBuilder {
                port: config.ssh_port,
                deadline: *deadline,
            },
            StartVm::StopRunner { runner, .. } => VmTask::Terminate {
                group: runner.group(),
                grace: config.stop_timeout,
            },
            StartVm::StopGvproxy { gvproxy, .. } => VmTask::Terminate {
                group: gvproxy.group(),
                grace: config.stop_timeout,
            },
            StartVm::Finished { .. } => VmTask::Nothing,
        }
    }
}

/// Begins, at `now`, to start a VM. The start may last for the start timeout.
pub fn start_vm_processes<C, S>(config: &Config, now: Duration) -> (step: StartVm<C, S>)
    ensures
        step == begun::<C, S>(*config, now),
{
    StartVm::CreateDirectory { deadline: deadline_after(now, config.start_timeout) }
}

/// A start that has just begun.
pub open spec fn begun<C, S>(config: Config, now: Duration) -> StartVm<C, S> {
    StartVm::CreateDirectory { deadline: deadline(now, config.start_timeout) }
}

/// The processes that a start has spawned by the time that it has taken
/// `events`, in the order of their spawning.
pub open spec fn spawned<C, S>(start: StartVm<C, S>, events: Seq<StartEvent<C, S>>) -> Seq<
    ManagedChild<C>,
>
    decreases events.len(),
{
    if events.len() == 0 {
        seq![]
    } else {
        let before = start.run(events.drop_last());
        match (before, events.last()) {
            (StartVm::SpawnGvproxy { .. }, StartEvent::Spawned(Ok(child))) => spawned(
                start,
                events.drop_last(),
            ).push(child),
            (StartVm::SpawnRunner { .. }, StartEvent::Spawned(Ok(child))) => spawned(
                start,
                events.drop_last(),
            ).push(child),
            _ => spawned(start, events.drop_last()),
        }
    }
}

/// The processes that a start has had terminated by the time that it has taken
/// `events`, in the order of their termination.
pub open spec fn terminated<C, S>(start: StartVm<C, S>, events: Seq<StartEvent<C, S>>) -> Seq<
    ManagedChild<C>,
>
    decreases events.len(),
{
    if events.len() == 0 {
        seq![]
    } else {
        let before = start.run(events.drop_last());
        match (before, events.last()) {
            (StartVm::StopRunner { runner, .. }, StartEvent::Done(_)) => terminated(
                start,
                events.drop_last(),
            ).push(runner),
            (StartVm::StopGvproxy { gvproxy, .. }, StartEvent::Done(_)) => terminated(
                start,
                events.drop_last(),
            ).push(gvproxy),
            _ => terminated(start, events.drop_last()),
        }
    }
}

proof fn lemma_processes_accounted_for<C, S>(
    start: StartVm<C, S>,
    events: Seq<StartEvent<C, S>>,
)
    requires
        start is CreateDirectory,
    ensures
        match start.run(events) {
            StartVm::CreateDirectory { .. }
            | StartVm::RemoveSocket { .. }
            | StartVm::SpawnGvproxy { .. } => {
                &&& spawned(start, events) == Seq::<ManagedChild<C>>::empty()
                &&& terminated(start, events) == Seq::<ManagedChild<C>>::empty()
            },
            StartVm::AwaitSocket { gvproxy, .. } | StartVm::SpawnRunner { gvproxy, .. } => {
                &&& spawned(start, events) == seq![gvproxy]
                &&& terminated(start, events) == Seq::<ManagedChild<C>>::empty()
            },
            StartVm::AwaitBuilder { gvproxy, runner, .. } => {
                &&& spawned(start, events) == seq![gvproxy, runner]
                &&& terminated(start, events) == Seq::<ManagedChild<C>>::empty()
            },
            StartVm::StopRunner { gvproxy, runner, .. } => {
                &&& spawned(start, events) == seq![gvproxy, runner]
                &&& terminated(start, events) == Seq::<ManagedChild<C>>::empty()
            },
            StartVm::StopGvproxy { gvproxy, .. } => {
                ||| {
                    &&& spawned(start, events) == seq![gvproxy]
                    &&& terminated(start, events) == Seq::<ManagedChild<C>>::empty()
                }
                ||| {
                    &&& spawned(start, events).len() == 2
                    &&& spawned(start, events)[0] == gvproxy
                    &&& terminated(start, events) == seq![spawned(start, events)[1]]
                }
            },
            StartVm::Finished { result: Ok(vm) } => {
                &&& spawned(start, events) == seq![vm.gvproxy, vm.runner]
                &&& terminated(start, events) == Seq::<ManagedChild<C>>::empty()
            },
            StartVm::Finished { result: Err(_) } => {
                terminated(start, events) == spawned(start, events).reverse()
            },
        },
    decreases events.len(),
{
    if events.len() > 0 {
        let earlier = events.drop_last();
        lemma_processes_accounted_for(start, earlier);
        assert(seq![spawned(start, earlier)[0]] =~= seq![spawned(start, earlier)[0]].reverse());
        if start.run(events) matches StartVm::Finished { result: Err(_) } {
            assert(terminated(start, events) =~= spawned(start, events).reverse());
        }
    }
}

/// A start that fails leaves no process behind: all that it has spawned it has
/// had terminated, the last one first. One that succeeds has terminated none,
/// and hands over the two that it has spawned.
pub proof fn start_leaves_no_process_behind<C, S>(
    start: StartVm<C, S>,
    events: Seq<StartEvent<C, S>>,
)
    requires
        start is CreateDirectory,
    ensures
        match start.run(events) {
            StartVm::Finished { result: Ok(vm) } => {
                &&& spawned(start, events) == seq![vm.gvproxy, vm.runner]
                &&& terminated(start, events) == Seq::<ManagedChild<C>>::empty()
            },
            StartVm::Finished { result: Err(_) } => {
                terminated(start, events) == spawned(start, events).reverse()
            },
            _ => true,
        },
{
    lemma_processes_accounted_for(start, events);
}

/// Whether `event` is the failure `error`.
pub open spec fn fails_with<C, S>(event: StartEvent<C, S>, error: Error<S>) -> bool {
    match event {
        StartEvent::Done(result) => result == Err::<(), Error<S>>(error),
        StartEvent::Spawned(result) => result == Err::<ManagedChild<C>, Error<S>>(error),
    }
}

/// Whether a step belongs to the taking back of a failed start.
pub open spec fn takes_back<C, S>(step: StartVm<C, S>) -> bool {
    step is StopRunner || step is StopGvproxy
}

/// A start that fails reports what made it fail, and nothing that went wrong
/// while it was taken back.
pub proof fn failed_start_reports_its_cause<C, S>(
    start: StartVm<C, S>,
    events: Seq<StartEvent<C, S>>,
    error: Error<S>,
) -> (at: int)
    requires
        start is CreateDirectory,
        ({
            let step = start.run(events);
            ||| step == (StartVm::<C, S>::Finished { result: Err(error) })
            ||| step is StopRunner && step->StopRunner_error == error
            ||| step is StopGvproxy && step->StopGvproxy_error == error
        }),
    ensures
        0 <= at < events.len(),
        fails_with(events[at], error),
        ({
            let before = start.run(events.take(at));
            !takes_back(before) && !(before is Finished)
        }),
    decreases events.len(),
{
    let earlier = events.drop_last();
    let before = start.run(earlier);
    if takes_back(before) || before is Finished {
        let at = failed_start_reports_its_cause(start, earlier, error);
        assert(earlier.take(at) =~= events.take(at));
        at
    } else {
        assert(events.take(events.len() - 1) =~= earlier);
        events.len() - 1
    }
}

/// A start succeeds exactly if each of its steps does, and then hands over the
/// two processes that it has spawned.
pub proof fn start_succeeds_if_each_step_does<C, S>(
    start: StartVm<C, S>,
    directory: Result<(), Error<S>>,
    socket_removed: Result<(), Error<S>>,
    gvproxy: Result<ManagedChild<C>, Error<S>>,
    socket: Result<(), Error<S>>,
    runner: Result<ManagedChild<C>, Error<S>>,
    builder: Result<(), Error<S>>,
)
    requires
        start is CreateDirectory,
    ensures
        ({
            let end = start.next(StartEvent::Done(directory)).next(
                StartEvent::Done(socket_removed),
            ).next(StartEvent::Spawned(gvproxy)).next(StartEvent::Done(socket)).next(
                StartEvent::Spawned(runner),
            ).next(StartEvent::Done(builder));
            let all = directory is Ok && socket_removed is Ok && gvproxy is Ok && socket is Ok
                && runner is Ok && builder is Ok;
            &&& all ==> end == (StartVm::<C, S>::Finished {
                result: Ok(VmProcesses { gvproxy: gvproxy->Ok_0, runner: runner->Ok_0 }),
            })
            &&& !all ==> !(end is Finished && end->result is Ok)
        }),
{
}

proof fn lemma_deadline_is_kept<C, S>(limit: u128, events: Seq<StartEvent<C, S>>)
    ensures
        match (StartVm::<C, S>::CreateDirectory { deadline: limit }).run(events) {
            StartVm::CreateDirectory { deadline } => deadline == limit,
            StartVm::RemoveSocket { deadline } => deadline == limit,
            StartVm::SpawnGvproxy { deadline } => deadline == limit,
            StartVm::AwaitSocket { deadline, .. } => deadline == limit,
            StartVm::SpawnRunner { deadline, .. } => deadline == limit,
            StartVm::AwaitBuilder { deadline, .. } => deadline == limit,
            _ => true,
        },
    decreases events.len(),
{
    if events.len() > 0 {
        lemma_deadline_is_kept(limit, events.drop_last());
    }
}

proof fn lemma_run_push<C, S>(
    start: StartVm<C, S>,
    events: Seq<StartEvent<C, S>>,
    event: StartEvent<C, S>,
)
    ensures
        start.run(events.push(event)) == start.run(events).next(event),
{
    assert(events.push(event).drop_last() =~= events);
}

/// The start timeout bounds the start as a whole: both waits of a start are
/// asked to keep to the one moment that lies the timeout after its beginning.
pub proof fn both_waits_share_one_deadline<C, S>(
    config: Config,
    now: Duration,
    events: Seq<StartEvent<C, S>>,
    task: VmTask,
)
    requires
        begun::<C, S>(config, now).run(events).asks_for(config, task),
    ensures
        match task {
            VmTask::WaitForPath { deadline: limit, .. } => limit == now.total()
                + config.start_timeout.total(),
            VmTask::WaitForBuilder { deadline: limit, .. } => limit == now.total()
                + config.start_timeout.total(),
            _ => true,
        },
{
    lemma_deadline_is_kept(deadline(now, config.start_timeout), events);
}

/// What the wait for vfkit's socket awaits in a start that began at `now`.
pub open spec fn socket_goal(config: Config, now: Duration) -> PathGoal {
    PathGoal {
        program: Program::Gvproxy,
        path: config.vfkit_socket,
        deadline: deadline(now, config.start_timeout),
    }
}

/// What the wait for the builder awaits in a start that began at `now`.
pub open spec fn builder_goal(config: Config, now: Duration) -> BuilderGoal {
    BuilderGoal { port: config.ssh_port, deadline: deadline(now, config.start_timeout) }
}

/// A start fails once its timeout has passed without vfkit's socket: where the
/// clock, read while the socket is awaited and gvproxy runs, has come to the
/// timeout after the beginning, the start ends in a timeout, whatever
/// terminating gvproxy comes to.
pub proof fn late_socket_fails_the_start<C, S>(
    config: Config,
    now: Duration,
    events: Seq<StartEvent<C, S>>,
    rounds: Seq<PathRound<S>>,
    last: int,
    stopped: Result<(), Error<S>>,
)
    requires
        begun::<C, S>(config, now).run(events) is AwaitSocket,
        0 <= last < rounds.len(),
        forall|i: int|
            0 <= i < last ==> (#[trigger] rounds[i]).verdict(socket_goal(config, now)) is None,
        !rounds[last].exists,
        rounds[last].polled == Ok::<Option<ExitStatus>, S>(None),
        rounds[last].now.total() >= now.total() + config.start_timeout.total(),
    ensures
        ({
            let waited = (PathWait::CheckPath { goal: socket_goal(config, now) }).run(
                path_events(rounds),
            );
            let timeout = Err::<(), Error<S>>(
                Error::PathTimeout { program: Program::Gvproxy, path: config.vfkit_socket },
            );
            &&& waited == (PathWait::<S>::Finished { result: timeout })
            &&& begun::<C, S>(config, now).run(
                events.push(StartEvent::Done(timeout)).push(StartEvent::Done(stopped)),
            ) == (StartVm::<C, S>::Finished { result: Err(timeout->Err_0) })
        }),
{
    let goal = socket_goal(config, now);
    path_wait_ends_with_first_verdict(goal, rounds, last);
    let timeout = Err::<(), Error<S>>(
        Error::PathTimeout { program: Program::Gvproxy, path: config.vfkit_socket },
    );
    let start = begun::<C, S>(config, now);
    let failed = events.push(StartEvent::Done(timeout));
    lemma_run_push(start, events, StartEvent::Done(timeout));
    lemma_run_push(start, failed, StartEvent::Done(stopped));
}

/// A start fails once its timeout has passed without the builder: where the
/// clock, read while the builder is awaited and both processes run, has come to
/// the timeout after the beginning of the start, the start ends in a timeout,
/// whatever terminating the processes comes to. How long the socket was awaited
/// before makes no difference.
pub proof fn late_builder_fails_the_start<C, S>(
    config: Config,
    now: Duration,
    events: Seq<StartEvent<C, S>>,
    rounds: Seq<BuilderRound<S>>,
    last: int,
    runner_stopped: Result<(), Error<S>>,
    gvproxy_stopped: Result<(), Error<S>>,
)
    requires
        begun::<C, S>(config, now).run(events) is AwaitBuilder,
        0 <= last < rounds.len(),
        forall|i: int|
            0 <= i < last ==> (#[trigger] rounds[i]).verdict(builder_goal(config, now)) is None,
        rounds[last].probed != Ok::<bool, S>(true),
        rounds[last].gvproxy == Ok::<Option<ExitStatus>, S>(None),
        rounds[last].runner == Ok::<Option<ExitStatus>, S>(None),
        rounds[last].now.total() >= now.total() + config.start_timeout.total(),
    ensures
        ({
            let waited = (BuilderWait::Probe { goal: builder_goal(config, now) }).run(
                builder_events(rounds),
            );
            let timeout = Err::<(), Error<S>>(Error::BuilderTimeout { port: config.ssh_port });
            &&& waited == (BuilderWait::<S>::Finished { result: timeout })
            &&& begun::<C, S>(config, now).run(
                events.push(StartEvent::Done(timeout)).push(
                    StartEvent::Done(runner_stopped),
                ).push(StartEvent::Done(gvproxy_stopped)),
            ) == (StartVm::<C, S>::Finished { result: Err(timeout->Err_0) })
        }),
{
    builder_wait_ends_with_first_verdict(builder_goal(config, now), rounds, last);
    let timeout = Err::<(), Error<S>>(Error::BuilderTimeout { port: config.ssh_port });
    let start = begun::<C, S>(config, now);
    let failed = events.push(StartEvent::Done(timeout));
    let stopping = failed.push(StartEvent::Done(runner_stopped));
    lemma_run_push(start, events, StartEvent::Done(timeout));
    lemma_run_push(start, failed, StartEvent::Done(runner_stopped));
    lemma_run_push(start, stopping, StartEvent::Done(gvproxy_stopped));
}

/// A start that succeeds has kept to its timeout, but for the attempt under way
/// when it ran out: before each attempt at the builder that followed another,
/// the clock had not come to the timeout after the beginning of the start.
pub proof fn successful_start_keeps_to_its_timeout<C, S>(
    config: Config,
    now: Duration,
    events: Seq<StartEvent<C, S>>,
    rounds: Seq<BuilderRound<S>>,
) -> (ready: int)
    requires
        begun::<C, S>(config, now).run(events) is AwaitBuilder,
        ({
            let waited = (BuilderWait::Probe { goal: builder_goal(config, now) }).run(
                builder_events(rounds),
            );
            &&& waited is Finished
            &&& begun::<C, S>(config, now).run(
                events.push(StartEvent::Done(waited->result)),
            ) matches StartVm::Finished { result: Ok(_) }
        }),
    ensures
        0 <= ready < rounds.len(),
        rounds[ready].probed == Ok::<bool, S>(true),
        forall|i: int|
            0 <= i < ready ==> (#[trigger] rounds[i]).now.total() < now.total()
                + config.start_timeout.total(),
{
    let goal = builder_goal(config, now);
    let waited = (BuilderWait::Probe { goal }).run(builder_events(rounds));
    lemma_run_push(begun::<C, S>(config, now), events, StartEvent::Done(waited->result));
    let ready = lemma_first_verdict(goal, rounds);
    builder_wait_ends_with_first_verdict(goal, rounds, ready);
    ready
}

/// Finds the first round that ends a wait for the builder which has ended.
proof fn lemma_first_verdict<S>(goal: BuilderGoal, rounds: Seq<BuilderRound<S>>) -> (first: int)
    requires
        (BuilderWait::Probe { goal }).run(builder_events(rounds)) is Finished,
    ensures
        0 <= first < rounds.len(),
        rounds[first].verdict(goal) is Some,
        forall|i: int| 0 <= i < first ==> (#[trigger] rounds[i]).verdict(goal) is None,
{
    if forall|i: int| 0 <= i < rounds.len() ==> (#[trigger] rounds[i]).verdict(goal) is None {
        builder_wait_goes_on(goal, rounds);
    }
    let some = choose|i: int| 0 <= i < rounds.len() && (#[trigger] rounds[i]).verdict(goal) is Some;
    lemma_earliest(goal, rounds, some)
}

proof fn lemma_earliest<S>(goal: BuilderGoal, rounds: Seq<BuilderRound<S>>, at: int) -> (first: int)
    requires
        0 <= at < rounds.len(),
        rounds[at].verdict(goal) is Some,
    ensures
        0 <= first < rounds.len(),
        rounds[first].verdict(goal) is Some,
        forall|i: int| 0 <= i < first ==> (#[trigger] rounds[i]).verdict(goal) is None,
    decreases at,
{
    if exists|i: int| 0 <= i < at && (#[trigger] rounds[i]).verdict(goal) is Some {
        let earlier = choose|i: int| 0 <= i < at && (#[trigger] rounds[i]).verdict(goal) is Some;
        lemma_earliest(goal, rounds, earlier)
    } else {
        at
    }
}

/// A start does not give up on vfkit's socket early: where the wait for it
/// times out, the clock had come to the timeout after the beginning of the start.
pub proof fn socket_timeout_is_not_early<S>(
    config: Config,
    now: Duration,
    events: Seq<PathEvent<S>>,
) -> (at: int)
    requires
        (PathWait::CheckPath { goal: socket_goal(config, now) }).run(events) == (PathWait::<
            S,
        >::Finished {
            result: Err(
                Error::PathTimeout { program: Program::Gvproxy, path: config.vfkit_socket },
            ),
        }),
    ensures
        0 <= at < events.len(),
        events[at] is Clock,
        events[at]->Clock_0.total() >= now.total() + config.start_timeout.total(),
{
    path_wait_reports_what_was_seen(socket_goal(config, now), events)
}

/// A start does not give up on the builder early: where the wait for it times
/// out, the clock had come to the timeout after the beginning of the start.
pub proof fn builder_timeout_is_not_early<S>(
    config: Config,
    now: Duration,
    events: Seq<BuilderEvent<S>>,
) -> (at: int)
    requires
        (BuilderWait::Probe { goal: builder_goal(config, now) }).run(events) == (BuilderWait::<
            S,
        >::Finished { result: Err(Error::BuilderTimeout { port: config.ssh_port }) }),
    ensures
        0 <= at < events.len(),
        events[at] is Clock,
        events[at]->Clock_0.total() >= now.total() + config.start_timeout.total(),
{
    builder_wait_reports_what_was_seen(builder_goal(config, now), events)
}

/// The taking down of a VM, by what is to be done next.
#[derive(Debug, PartialEq, Eq)]
pub enum StopProcesses<C, S> {
    /// Terminate the runner.
    StopRunner { vm: VmProcesses<C> },
    /// Terminate gvproxy.
    StopGvproxy { vm: VmProcesses<C>, runner: Result<(), Error<S>> },
    /// Remove vfkit's socket.
    RemoveSocket { runner: Result<(), Error<S>>, gvproxy: Result<(), Error<S>> },
    /// Nothing is left to do.
    Finished { result: Result<(), Error<S>> },
}

/// The first of two results that is an error, or success.
pub open spec fn first_error<S>(first: Result<(), Error<S>>, second: Result<(), Error<S>>) -> Result<
    (),
    Error<S>,
> {
    match first {
        Err(error) => Err(error),
        Ok(_) => match second {
            Err(error) => Err(error),
            Ok(_) => Ok(()),
        },
    }
}

impl<C, S> StopProcesses<C, S> {
    /// The step after this one, given what it came to.
    pub open spec fn next(self, done: Result<(), Error<S>>) -> Self {
        match self {
            StopProcesses::StopRunner { vm } => StopProcesses::StopGvproxy { vm, runner: done },
            StopProcesses::StopGvproxy { runner, .. } => StopProcesses::RemoveSocket {
                runner,
                gvproxy: done,
            },
            StopProcesses::RemoveSocket { runner, gvproxy } => StopProcesses::Finished {
                result: first_error(runner, gvproxy),
            },
            StopProcesses::Finished { .. } => self,
        }
    }

    pub fn advance(self, done: Result<(), Error<S>>) -> (step: Self)
        ensures
            step == self.next(done),
    {
        match self {
            StopProcesses::StopRunner { vm } => StopProcesses::StopGvproxy { vm, runner: done },
            StopProcesses::StopGvproxy { runner, .. } => StopProcesses::RemoveSocket {
                runner,
                gvproxy: done,
            },
            StopProcesses::RemoveSocket { runner, gvproxy } => {
                let result = match runner {
                    Err(error) => Err(error),
                    Ok(_) => match gvproxy {
                        Err(error) => Err(error),
                        Ok(_) => Ok(()),
                    },
                };
                StopProcesses::Finished { result }
            },
            StopProcesses::Finished { result } => StopProcesses::Finished { result },
        }
    }

    /// Whether `task` is what this step asks for under `config`.
    pub open spec fn asks_for(self, config: Config, task: VmTask) -> bool {
        match self {
            StopProcesses::StopRunner { vm, .. } => task == (VmTask::Terminate {
                group: vm.runner.leads(),
                grace: config.stop_timeout,
            }),
            StopProcesses::StopGvproxy { vm, .. } => task == (VmTask::Terminate {
                group: vm.gvproxy.leads(),
                grace: config.stop_timeout,
            }),
            StopProcesses::RemoveSocket { .. } => {
                &&& task matches VmTask::RemoveFile { path }
                &&& path@ == config.vfkit_socket@
            },
            StopProcesses::Finished { .. } => task == VmTask::Nothing,
        }
    }

    pub fn task(&self, config: &Config) -> (task: VmTask)
        ensures
            self.asks_for(*config, task),
    {
        match self {
            StopProcesses::StopRunner { vm, .. } => VmTask::Terminate {
                group: vm.runner.group(),
                grace: config.stop_timeout,
            },
            StopProcesses::StopGvproxy { vm, .. } => VmTask::Terminate {
                group: vm.gvproxy.group(),
                grace: config.stop_timeout,
            },
            StopProcesses::RemoveSocket { .. } => VmTask::RemoveFile {
                path: slice_to_vec(config.vfkit_socket.as_slice()),
            },
            StopProcesses::Finished { .. } => VmTask::Nothing,
        }
    }
}

/// Begins to take down `vm`.
pub fn terminate_vm<C, S>(vm: VmProcesses<C>) -> (step: StopProcesses<C, S>)
    ensures
        step == (StopProcesses::<C, S>::StopRunner { vm }),
{
    StopProcesses::StopRunner { vm }
}

/// Taking down a VM goes through all of its steps, whatever they come to: the
/// runner, gvproxy, the socket. What it comes to is the runner's error, else
/// gvproxy's, and never the socket's.
pub proof fn taking_down_goes_through_all_steps<C, S>(
    vm: VmProcesses<C>,
    runner: Result<(), Error<S>>,
    gvproxy: Result<(), Error<S>>,
    socket: Result<(), Error<S>>,
)
    ensures
        ({
            let start = StopProcesses::<C, S>::StopRunner { vm };
            &&& start.next(runner) is StopGvproxy
            &&& start.next(runner)->StopGvproxy_vm == vm
            &&& start.next(runner).next(gvproxy) is RemoveSocket
            &&& start.next(runner).next(gvproxy).next(socket) == (StopProcesses::<C, S>::Finished {
                result: first_error(runner, gvproxy),
            })
        }),
{
}

/// How far a start has come, counted in steps of its longest course.
pub open spec fn stage<C, S>(step: StartVm<C, S>) -> nat {
    match step {
        StartVm::CreateDirectory { .. } => 0,
        StartVm::RemoveSocket { .. } => 1,
        StartVm::SpawnGvproxy { .. } => 2,
        StartVm::AwaitSocket { .. } => 3,
        StartVm::SpawnRunner { .. } => 4,
        StartVm::AwaitBuilder { .. } => 5,
        StartVm::StopRunner { .. } => 6,
        StartVm::StopGvproxy { .. } => 7,
        StartVm::Finished { .. } => 8,
    }
}

/// Whether `event` is the kind of answer that `step` asks for.
pub open spec fn is_answer<C, S>(step: StartVm<C, S>, event: StartEvent<C, S>) -> bool {
    match event {
        StartEvent::Spawned(_) => step is SpawnGvproxy || step is SpawnRunner,
        StartEvent::Done(_) => !(step is SpawnGvproxy || step is SpawnRunner || step is Finished),
    }
}

/// Each answer moves a start to a later step, so that it takes at most eight
/// answers. Where the answer is a success, it is the very next step, but that
/// nothing is taken back once the builder answers. Nothing else moves a start.
pub proof fn each_answer_moves_a_start_on<C, S>(step: StartVm<C, S>, event: StartEvent<C, S>)
    ensures
        is_answer(step, event) ==> stage(step.next(event)) > stage(step),
        !is_answer(step, event) ==> step.next(event) == step,
        is_answer(step, event) && !takes_back(step) ==> ({
            let succeeded = match event {
                StartEvent::Spawned(result) => result is Ok,
                StartEvent::Done(result) => result is Ok,
            };
            if !succeeded {
                stage(step.next(event)) >= 6
            } else if step is AwaitBuilder {
                stage(step.next(event)) == 8
            } else {
                stage(step.next(event)) == stage(step) + 1
            }
        }),
        is_answer(step, event) && takes_back(step) ==> stage(step.next(event)) == stage(step) + 1,
{
}

/// A start in which any step fails ends with that failure, of whatever kind it
/// is: from each step that awaits an answer, the failure leads, once what was
/// spawned has been terminated, to the end of the start with the same error,
/// whatever the terminations come to.
pub proof fn any_failure_ends_the_start<C, S>(
    step: StartVm<C, S>,
    event: StartEvent<C, S>,
    error: Error<S>,
    one_stopped: Result<(), Error<S>>,
    other_stopped: Result<(), Error<S>>,
)
    requires
        is_answer(step, event),
        !takes_back(step),
        match event {
            StartEvent::Done(result) => result == Err::<(), Error<S>>(error),
            StartEvent::Spawned(result) => result == Err::<ManagedChild<C>, Error<S>>(error),
        },
    ensures
        step.next(event).next(StartEvent::Done(one_stopped)).next(StartEvent::Done(other_stopped))
            == (StartVm::<C, S>::Finished { result: Err(error) }),
        match step {
            StartVm::AwaitSocket { gvproxy, .. } | StartVm::SpawnRunner { gvproxy, .. } => {
                step.next(event) == (StartVm::<C, S>::StopGvproxy { gvproxy, error })
            },
            StartVm::AwaitBuilder { gvproxy, runner, .. } => {
                &&& step.next(event) == (StartVm::<C, S>::StopRunner { gvproxy, runner, error })
                &&& step.next(event).next(StartEvent::Done(one_stopped)) == (StartVm::<
                    C,
                    S,
                >::StopGvproxy { gvproxy, error })
            },
            _ => step.next(event) is Finished,
        },
{
}

/// A start goes about its work in this order: the directory, the stale socket,
/// gvproxy, the wait for the socket, the runner, the wait for the builder. The
/// processes that it waits for are those that it has spawned.
pub proof fn start_goes_step_by_step<C, S>(
    config: Config,
    now: Duration,
    gvproxy: ManagedChild<C>,
    runner: ManagedChild<C>,
)
    ensures
        ({
            let done = StartEvent::<C, S>::Done(Ok(()));
            let limit = (now.total() + config.start_timeout.total()) as u128;
            let start = begun::<C, S>(config, now);
            let spawning = start.next(done).next(done);
            let awaiting = spawning.next(StartEvent::Spawned(Ok(gvproxy)));
            let running = awaiting.next(done);
            let last = running.next(StartEvent::Spawned(Ok(runner)));
            &&& start == (StartVm::<C, S>::CreateDirectory { deadline: limit })
            &&& start.next(done) == (StartVm::<C, S>::RemoveSocket { deadline: limit })
            &&& spawning == (StartVm::<C, S>::SpawnGvproxy { deadline: limit })
            &&& awaiting == (StartVm::<C, S>::AwaitSocket { deadline: limit, gvproxy })
            &&& running == (StartVm::<C, S>::SpawnRunner { deadline: limit, gvproxy })
            &&& last == (StartVm::<C, S>::AwaitBuilder { deadline: limit, gvproxy, runner })
            &&& last.next(done) matches StartVm::Finished { result: Ok(vm) }
            &&& vm.gvproxy == gvproxy && vm.runner == runner
        }),
{
}

/// Whatever task a start asks for, it is about the configured files, programs,
/// port and times: the directory is the runtime directory, the file and the path
/// are vfkit's socket, gvproxy is what should create it, each program is spawned
/// from its own executable, the builder is awaited at the SSH port, and a process
/// that is terminated has the stop timeout as its grace period. Which kind of
/// task it is the step alone decides.
pub proof fn start_asks_for_what_is_configured<C, S>(
    step: StartVm<C, S>,
    config: Config,
    task: VmTask,
)
    requires
        step.asks_for(config, task),
    ensures
        match task {
            VmTask::CreateDirectory { path } => path@ == config.runtime_dir@,
            VmTask::RemoveFile { path } => path@ == config.vfkit_socket@,
            VmTask::Spawn { program, executable, args } => {
                ||| program is Gvproxy && executable@ == config.gvproxy@
                    && config.starts_gvproxy_with(args@)
                ||| program is Runner && executable@ == config.runner@ && args@.len() == 0
            },
            VmTask::WaitForPath { program, path, .. } => program is Gvproxy && path@
                == config.vfkit_socket@,
            VmTask::WaitForBuilder { port, .. } => port == config.ssh_port,
            VmTask::Terminate { grace, .. } => grace == config.stop_timeout,
            VmTask::Nothing => true,
        },
        step is CreateDirectory <==> task is CreateDirectory,
        step is RemoveSocket <==> task is RemoveFile,
        step is SpawnGvproxy <==> task is Spawn && task->Spawn_program is Gvproxy,
        step is AwaitSocket <==> task is WaitForPath,
        step is SpawnRunner <==> task is Spawn && task->Spawn_program is Runner,
        step is AwaitBuilder <==> task is WaitForBuilder,
        takes_back(step) <==> task is Terminate,
        step is Finished <==> task is Nothing,
        step matches StartVm::AwaitSocket { deadline: limit, .. } ==> task->WaitForPath_deadline
            == limit,
        step matches StartVm::AwaitBuilder { deadline: limit, .. }
            ==> task->WaitForBuilder_deadline == limit,
        step matches StartVm::StopRunner { runner, .. } ==> {
            &&& task->group.id == runner.process_group
            &&& task->group.program == runner.program
        },
        step matches StartVm::StopGvproxy { gvproxy, .. } ==> {
            &&& task->group.id == gvproxy.process_group
            &&& task->group.program == gvproxy.program
        },
{
}

/// Whatever task the taking down of a VM asks for under a configuration, a
/// termination has the configured stop timeout as its grace period and goes to
/// the group of the process whose turn it is, and the file to be removed is
/// vfkit's socket.
pub proof fn taking_down_asks_for_what_is_configured<C, S>(
    step: StopProcesses<C, S>,
    config: Config,
    task: VmTask,
)
    requires
        step.asks_for(config, task),
    ensures
        task is Terminate ==> task->grace == config.stop_timeout,
        task matches VmTask::RemoveFile { path } ==> path@ == config.vfkit_socket@,
        step is StopRunner || step is StopGvproxy <==> task is Terminate,
        step is RemoveSocket <==> task is RemoveFile,
        step is Finished <==> task is Nothing,
        step matches StopProcesses::StopRunner { vm } ==> {
            &&& task->group.id == vm.runner.process_group
            &&& task->group.program == vm.runner.program
        },
        step matches StopProcesses::StopGvproxy { vm, .. } ==> {
            &&& task->group.id == vm.gvproxy.process_group
            &&& task->group.program == vm.gvproxy.program
        },
{
}

/// A runner, or a gvproxy, that ignores `SIGTERM` while its VM is taken down is
/// sent `SIGKILL` in the first round whose reading of the clock lies at least the
/// configured stop timeout after the reading that followed `SIGTERM`.
pub proof fn taking_down_kills_after_the_stop_timeout<C, S>(
    step: StopProcesses<C, S>,
    config: Config,
    task: VmTask,
    began: Duration,
    rounds: Seq<GraceRound<S>>,
)
    requires
        step.asks_for(config, task),
        step is StopRunner || step is StopGvproxy,
        rounds.len() > 0,
        runs_through(rounds, began, config.stop_timeout),
        rounds.last().now.total() >= began.total() + config.stop_timeout.total(),
    ensures
        task matches VmTask::Terminate { group, grace } && (Termination::<S>::FirstPoll {
            group,
            grace,
        }).next(TerminationEvent::Polled(Ok(None))).next(TerminationEvent::Signalled(Ok(()))).next(
            TerminationEvent::Clock(began),
        ).run(grace_events(rounds)) == (Termination::<S>::SendKill { group }),
{
    stubborn_process_is_killed(
        task->group,
        task->grace,
        Ok(()),
        began,
        rounds,
        Ok(()),
        Ok::<(), S>(()),
    );
}

/// Taking down a VM terminates both of its processes, the runner first, and
/// removes the socket, however each of these goes. It fails exactly if a
/// termination did, with the runner's failure before gvproxy's.
pub proof fn taking_down_fails_as_its_terminations_do<C, S>(
    vm: VmProcesses<C>,
    runner: Result<(), Error<S>>,
    gvproxy: Result<(), Error<S>>,
    socket: Result<(), Error<S>>,
)
    ensures
        ({
            let second = (StopProcesses::<C, S>::StopRunner { vm }).next(runner);
            let third = second.next(gvproxy);
            let end = third.next(socket);
            &&& second matches StopProcesses::StopGvproxy { vm: same, .. }
            &&& same == vm
            &&& third is RemoveSocket
            &&& end matches StopProcesses::Finished { result }
            &&& runner is Ok && gvproxy is Ok <==> result is Ok
            &&& runner matches Err(error) ==> result == Err::<(), Error<S>>(error)
            &&& runner is Ok ==> (gvproxy matches Err(error) ==> result == Err::<(), Error<S>>(
                error,
            ))
            &&& end.next(socket) == end
        }),
{
}

} // verus!
