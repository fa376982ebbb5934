//! The daemon: preparing its socket, accepting connections, shutting down.

use crate::config::Config;
use crate::error::{Error, StopSignal};
use vstd::prelude::*;
use vstd::slice::slice_to_vec;

verus! {

/// The daemon, by what is to be done next.
#[derive(Debug, PartialEq, Eq)]
pub enum Daemon<S> {
    /// Create the runtime directory.
    CreateDirectory,
    /// Remove a socket that an earlier daemon may have left.
    RemoveStaleSocket,
    /// Bind the daemon's socket.
    Bind,
    /// Install the handler of a signal.
    InstallHandler { stop: StopSignal },
    /// Wait for a connection or a signal.
    Serve,
    /// Have the accepted connection served, and do not wait for that.
    Dispatch,
    /// Stop the VM.
    StopVm,
    /// Remove the daemon's socket.
    RemoveSocket,
    /// Nothing is left to do.
    Finished { result: Result<(), Error<S>> },
}

/// The answer to a step of the daemon.
#[derive(Debug, PartialEq, Eq)]
pub enum DaemonEvent<S> {
    /// What was done other than waiting and dispatching came to this.
    Done(Result<(), Error<S>>),
    /// A connection was accepted, or could not be.
    Accepted(Result<(), S>),
    /// A signal asked the daemon to stop.
    Signalled(StopSignal),
    Dispatched,
}

/// Something to be done for the daemon, with all that it takes.
#[derive(Debug, PartialEq, Eq)]
pub enum DaemonTask {
    CreateDirectory { path: Vec<u8> },
    RemoveFile { path: Vec<u8> },
    Bind { path: Vec<u8> },
    InstallHandler { stop: StopSignal },
    Serve,
    Dispatch,
    StopVm,
    Nothing,
}

impl<S> Daemon<S> {
    /// The step after this one, given the answer to it. An answer to some
    /// other step changes nothing. Once the daemon was told to stop, what goes
    /// wrong no longer matters.
    pub open spec fn next(self, event: DaemonEvent<S>) -> Self {
        match (self, event) {
            (Daemon::CreateDirectory, DaemonEvent::Done(result)) => match result {
                Ok(_) => Daemon::RemoveStaleSocket,
                Err(error) => Daemon::Finished { result: Err(error) },
            },
            (Daemon::RemoveStaleSocket, DaemonEvent::Done(result)) => match result {
                Ok(_) => Daemon::Bind,
                Err(error) => Daemon::Finished { result: Err(error) },
            },
            (Daemon::Bind, DaemonEvent::Done(result)) => match result {
                Ok(_) => Daemon::InstallHandler { stop: StopSignal::Terminate },
                Err(error) => Daemon::Finished { result: Err(error) },
            },
            (Daemon::InstallHandler { stop }, DaemonEvent::Done(result)) => match result {
                Ok(_) => match stop {
                    StopSignal::Terminate => Daemon::InstallHandler { stop: StopSignal::Interrupt },
                    StopSignal::Interrupt => Daemon::Serve,
                },
                Err(error) => Daemon::Finished { result: Err(error) },
            },
            (Daemon::Serve, DaemonEvent::Accepted(outcome)) => match outcome {
                Ok(_) => Daemon::Dispatch,
                Err(source) => Daemon::Finished { result: Err(Error::AcceptConnection { source }) },
            },
            (Daemon::Serve, DaemonEvent::Signalled(_)) => Daemon::StopVm,
            (Daemon::Dispatch, DaemonEvent::Dispatched) => Daemon::Serve,
            (Daemon::StopVm, DaemonEvent::Done(_)) => Daemon::RemoveSocket,
            (Daemon::RemoveSocket, DaemonEvent::Done(_)) => Daemon::Finished { result: Ok(()) },
            _ => self,
        }
    }

    /// The step that is reached once all of `events` have been taken, in order.
    pub open spec fn run(self, events: Seq<DaemonEvent<S>>) -> Self
        decreases events.len(),
    {
        if events.len() == 0 {
            self
        } else {
            self.run(events.drop_last()).next(events.last())
        }
    }

    pub fn advance(self, event: DaemonEvent<S>) -> (step: Self)
        ensures
            step == self.next(event),
    {
        match (self, event) {
            (Daemon::CreateDirectory, DaemonEvent::Done(result)) => match result {
                Ok(_) => Daemon::RemoveStaleSocket,
                Err(error) => Daemon::Finished { result: Err(error) },
            },
            (Daemon::RemoveStaleSocket, DaemonEvent::Done(result)) => match result {
                Ok(_) => Daemon::Bind,
                Err(error) => Daemon::Finished { result: Err(error) },
            },
            (Daemon::Bind, DaemonEvent::Done(result)) => match result {
                Ok(_) => Daemon::InstallHandler { stop: StopSignal::Terminate },
                Err(error) => Daemon::Finished { result: Err(error) },
            },
            (Daemon::InstallHandler { stop }, DaemonEvent::Done(result)) => match result {
                Ok(_) => match stop {
                    StopSignal::Terminate => Daemon::InstallHandler { stop: StopSignal::Interrupt },
                    StopSignal::Interrupt => Daemon::Serve,
                },
                Err(error) => Daemon::Finished { result: Err(error) },
            },
            (Daemon::Serve, DaemonEvent::Accepted(outcome)) => match outcome {
                Ok(_) => Daemon::Dispatch,
                Err(source) => Daemon::Finished { result: Err(Error::AcceptConnection { source }) },
            },
            (Daemon::Serve, DaemonEvent::Signalled(_)) => Daemon::StopVm,
            (Daemon::Dispatch, DaemonEvent::Dispatched) => Daemon::Serve,
            (Daemon::StopVm, DaemonEvent::Done(_)) => Daemon::RemoveSocket,
            (Daemon::RemoveSocket, DaemonEvent::Done(_)) => Daemon::Finished { result: Ok(()) },
            (step, _) => step,
        }
    }

    /// Whether `task` is what this step asks for under `config`.
    pub open spec fn asks_for(self, config: Config, task: DaemonTask) -> bool {
        match self {
            Daemon::CreateDirectory => {
                &&& task matches DaemonTask::CreateDirectory { path }
                &&& path@ == config.runtime_dir@
            },
            Daemon::RemoveStaleSocket | Daemon::RemoveSocket => {
                &&& task matches DaemonTask::RemoveFile { path }
                &&& path@ == config.daemon_socket@
            },
            Daemon::Bind => {
                &&& task matches DaemonTask::Bind { path }
                &&& path@ == config.daemon_socket@
            },
            Daemon::InstallHandler { stop } => task == (DaemonTask::InstallHandler { stop }),
            Daemon::Serve => task == DaemonTask::Serve,
            Daemon::Dispatch => task == DaemonTask::Dispatch,
            Daemon::StopVm => task == DaemonTask::StopVm,
            Daemon::Finished { .. } => task == DaemonTask::Nothing,
        }
    }

    pub fn task(&self, config: &Config) -> (task: DaemonTask)
        ensures
            self.asks_for(*config, task),
    {
        match self {
            Daemon::CreateDirectory => DaemonTask::CreateDirectory {
                path: slice_to_vec(config.runtime_dir.as_slice()),
            },
            Daemon::RemoveStaleSocket | Daemon::RemoveSocket => DaemonTask::RemoveFile {
                path: slice_to_vec(config.daemon_socket.as_slice()),
            },
            Daemon::Bind => DaemonTask::Bind {
                path: slice_to_vec(config.daemon_socket.as_slice()),
            },
            Daemon::InstallHandler { stop } => DaemonTask::InstallHandler { stop: *stop },
            Daemon::Serve => DaemonTask::Serve,
            Daemon::Dispatch => DaemonTask::Dispatch,
            Daemon::StopVm => DaemonTask::StopVm,
            Daemon::Finished { .. } => DaemonTask::Nothing,
        }
    }
}

/// Begins to run the daemon.
pub fn run_daemon<S>() -> (step: Daemon<S>)
    ensures
        step == Daemon::<S>::CreateDirectory,
{
    Daemon::CreateDirectory
}

/// The daemon serves exactly if each step of its preparation has succeeded;
/// otherwise it comes to the first failure.
pub proof fn daemon_serves_once_prepared<S>(
    directory: Result<(), Error<S>>,
    stale_socket: Result<(), Error<S>>,
    bound: Result<(), Error<S>>,
    terminate: Result<(), Error<S>>,
    interrupt: Result<(), Error<S>>,
)
    ensures
        Daemon::CreateDirectory.next(DaemonEvent::Done(directory)).next(
            DaemonEvent::Done(stale_socket),
        ).next(DaemonEvent::Done(bound)).next(DaemonEvent::Done(terminate)).next(
            DaemonEvent::Done(interrupt),
        ) == match (directory, stale_socket, bound, terminate, interrupt) {
            (Err(error), _, _, _, _) => Daemon::Finished { result: Err(error) },
            (_, Err(error), _, _, _) => Daemon::Finished { result: Err(error) },
            (_, _, Err(error), _, _) => Daemon::Finished { result: Err(error) },
            (_, _, _, Err(error), _) => Daemon::Finished { result: Err(error) },
            (_, _, _, _, Err(error)) => Daemon::Finished { result: Err(error) },
            _ => Daemon::Serve,
        },
{
}

/// The answers while connections are accepted and dispatched, `count` times.
pub open spec fn accepting<S>(count: nat) -> Seq<DaemonEvent<S>>
    decreases count,
{
    if count == 0 {
        seq![]
    } else {
        accepting((count - 1) as nat) + seq![
            DaemonEvent::Accepted(Ok(())),
            DaemonEvent::Dispatched,
        ]
    }
}

/// The daemon goes on to serve after any number of connections.
pub proof fn daemon_keeps_serving<S>(count: nat)
    ensures
        Daemon::<S>::Serve.run(accepting(count)) == Daemon::<S>::Serve,
    decreases count,
{
    if count > 0 {
        daemon_keeps_serving::<S>((count - 1) as nat);
        let all = accepting::<S>(count);
        assert(all.drop_last().drop_last() =~= accepting((count - 1) as nat));
        reveal_with_fuel(Daemon::run, 3);
    }
}

/// A daemon that is told to stop stops the VM, then removes its socket, and
/// succeeds, whatever these come to.
pub proof fn signalled_daemon_shuts_down<S>(
    stop: StopSignal,
    stopped: Result<(), Error<S>>,
    removed: Result<(), Error<S>>,
)
    ensures
        ({
            let signalled = Daemon::<S>::Serve.next(DaemonEvent::Signalled(stop));
            &&& signalled == Daemon::<S>::StopVm
            &&& signalled.next(DaemonEvent::Done(stopped)) == Daemon::<S>::RemoveSocket
            &&& signalled.next(DaemonEvent::Done(stopped)).next(DaemonEvent::Done(removed)) == (
            Daemon::<S>::Finished { result: Ok(()) })
        }),
{
}

/// A daemon that succeeds was told to stop, and then stopped the VM and removed
/// its socket, in this order.
pub proof fn success_means_shut_down<S>(events: Seq<DaemonEvent<S>>) -> (at: (int, int, int))
    requires
        Daemon::<S>::CreateDirectory.run(events) is Finished,
        Daemon::<S>::CreateDirectory.run(events)->result is Ok,
    ensures
        0 <= at.0 < at.1 < at.2 < events.len(),
        Daemon::<S>::CreateDirectory.run(events.take(at.0)) is Serve,
        events[at.0] is Signalled,
        Daemon::<S>::CreateDirectory.run(events.take(at.1)) is StopVm,
        events[at.1] is Done,
        Daemon::<S>::CreateDirectory.run(events.take(at.2)) is RemoveSocket,
        events[at.2] is Done,
{
    let removed = lemma_entered(events, 2);
    let stopped = lemma_entered(events.take(removed), 1);
    assert(events.take(removed).take(stopped) =~= events.take(stopped));
    let signalled = lemma_entered(events.take(stopped), 0);
    assert(events.take(stopped).take(signalled) =~= events.take(signalled));
    (signalled, stopped, removed)
}

/// Finds the answer that led from stage `stage` of a shutdown to the next.
proof fn lemma_entered<S>(events: Seq<DaemonEvent<S>>, stage: int) -> (at: int)
    requires
        ({
            let step = Daemon::<S>::CreateDirectory.run(events);
            ||| stage == 0 && step is StopVm
            ||| stage == 1 && step is RemoveSocket
            ||| stage == 2 && step is Finished && step->result is Ok
        }),
    ensures
        0 <= at < events.len(),
        ({
            let before = Daemon::<S>::CreateDirectory.run(events.take(at));
            ||| stage == 0 && before is Serve && events[at] is Signalled
            ||| stage == 1 && before is StopVm && events[at] is Done
            ||| stage == 2 && before is RemoveSocket && events[at] is Done
        }),
    decreases events.len(),
{
    let earlier = events.drop_last();
    let step = Daemon::<S>::CreateDirectory.run(events);
    if Daemon::<S>::CreateDirectory.run(earlier) == step {
        let at = lemma_entered(earlier, stage);
        assert(earlier.take(at) =~= events.take(at));
        at
    } else {
        assert(events.take(events.len() - 1) =~= earlier);
        events.len() - 1
    }
}

/// Whatever task the daemon asks for, the directory is the configured runtime
/// directory, and the file that is removed and the one that is bound are its own
/// socket. Which kind of task it is the step alone decides.
pub proof fn daemon_asks_for_what_is_configured<S>(
    step: Daemon<S>,
    config: Config,
    task: DaemonTask,
)
    requires
        step.asks_for(config, task),
    ensures
        match task {
            DaemonTask::CreateDirectory { path } => path@ == config.runtime_dir@,
            DaemonTask::RemoveFile { path } => path@ == config.daemon_socket@,
            DaemonTask::Bind { path } => path@ == config.daemon_socket@,
            DaemonTask::InstallHandler { stop } => step == (Daemon::<S>::InstallHandler { stop }),
            _ => true,
        },
        step is CreateDirectory <==> task is CreateDirectory,
        step is RemoveStaleSocket || step is RemoveSocket <==> task is RemoveFile,
        step is Bind <==> task is Bind,
        step is InstallHandler <==> task is InstallHandler,
        step is Serve <==> task is Serve,
        step is Dispatch <==> task is Dispatch,
        step is StopVm <==> task is StopVm,
        step is Finished <==> task is Nothing,
{
}

/// The daemon prepares itself in this order: the directory, the stale socket, its
/// own socket, the handler of `SIGTERM`, that of `SIGINT`. Any failure on the way,
/// of whatever kind, is what it ends with.
pub proof fn preparation_goes_step_by_step<S>(done: Result<(), Error<S>>)
    ensures
        ({
            let answer = DaemonEvent::<S>::Done(done);
            let terminate = Daemon::<S>::InstallHandler { stop: StopSignal::Terminate };
            let interrupt = Daemon::<S>::InstallHandler { stop: StopSignal::Interrupt };
            &&& done is Ok ==> {
                &&& Daemon::<S>::CreateDirectory.next(answer) is RemoveStaleSocket
                &&& Daemon::<S>::RemoveStaleSocket.next(answer) is Bind
                &&& Daemon::<S>::Bind.next(answer) == terminate
                &&& terminate.next(answer) == interrupt
                &&& interrupt.next(answer) is Serve
            }
            &&& done matches Err(error) ==> {
                let failed = Daemon::<S>::Finished { result: Err(error) };
                &&& Daemon::<S>::CreateDirectory.next(answer) == failed
                &&& Daemon::<S>::RemoveStaleSocket.next(answer) == failed
                &&& Daemon::<S>::Bind.next(answer) == failed
                &&& terminate.next(answer) == failed
                &&& interrupt.next(answer) == failed
            }
        }),
{
}

/// While the daemon serves, every connection that is accepted is dispatched, and
/// then it serves on. It ends if a connection cannot be accepted, with that
/// failure; either signal has it stop the VM first.
pub proof fn serving_daemon_takes_what_comes<S>(accepted: Result<(), S>, stop: StopSignal)
    ensures
        accepted is Ok ==> {
            &&& Daemon::<S>::Serve.next(DaemonEvent::Accepted(accepted)) is Dispatch
            &&& Daemon::<S>::Dispatch.next(DaemonEvent::Dispatched) is Serve
        },
        accepted matches Err(source) ==> Daemon::<S>::Serve.next(DaemonEvent::Accepted(accepted))
            == (Daemon::<S>::Finished { result: Err(Error::AcceptConnection { source }) }),
        Daemon::<S>::Serve.next(DaemonEvent::Signalled(stop)) is StopVm,
{
}

/// The daemon moves on with every answer to its step, and with nothing else.
pub proof fn only_answers_move_the_daemon<S>(step: Daemon<S>, event: DaemonEvent<S>)
    ensures
        step.next(event) != step <==> match event {
            DaemonEvent::Done(_) => !(step is Serve || step is Dispatch || step is Finished),
            DaemonEvent::Accepted(_) => step is Serve,
            DaemonEvent::Signalled(_) => step is Serve,
            DaemonEvent::Dispatched => step is Dispatch,
        },
{
}

} // verus!
