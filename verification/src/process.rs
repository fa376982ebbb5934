//! Child processes: what spawning, polling and signalling them means.

use crate::error::{Error, ExitStatus, Program, Signal};
use vstd::prelude::*;

verus! {

/// The code of the error "no such process".
pub const ESRCH: i32 = 3;

/// Asks `nix::errno::Errno::from_raw` whether an error code is `Errno::ESRCH`.
/// On Linux, on Apple's systems and on the BSDs that is the code 3 and no other.
#[verifier::external_body]
fn errno_is_esrch(code: i32) -> (esrch: bool)
    ensures
        esrch == (code == ESRCH),
{
    nix::errno::Errno::from_raw(code) == nix::errno::Errno::ESRCH
}

/// Whether a signal counts as sent: it was, or the group has no process left.
pub open spec fn signal_sent(outcome: Result<(), i32>) -> bool {
    match outcome {
        Ok(_) => true,
        Err(code) => code == ESRCH,
    }
}

/// What sending `signal` to the process group of `program` comes to, where
/// `outcome` is that of the system call or its error code.
pub fn send_process_group_signal<S>(
    program: Program,
    signal: Signal,
    outcome: Result<(), i32>,
) -> (result: Result<(), Error<S>>)
    ensures
        signal_sent(outcome) ==> result == Ok::<(), Error<S>>(()),
        !signal_sent(outcome) ==> result == Err::<(), Error<S>>(
            Error::SignalProcessGroup { program, signal, errno: outcome->Err_0 },
        ),
{
    match outcome {
        Ok(_) => Ok(()),
        Err(code) => {
            if errno_is_esrch(code) {
                Ok(())
            } else {
                Err(Error::SignalProcessGroup { program, signal, errno: code })
            }
        },
    }
}

/// What polling the process of `program` found.
pub open spec fn inspection<S>(
    program: Program,
    polled: Result<Option<ExitStatus>, S>,
) -> Result<Option<ExitStatus>, Error<S>> {
    match polled {
        Ok(status) => Ok(status),
        Err(source) => Err(Error::InspectProcess { program, source }),
    }
}

pub fn try_wait<S>(program: Program, polled: Result<Option<ExitStatus>, S>) -> (found: Result<
    Option<ExitStatus>,
    Error<S>,
>)
    ensures
        found == inspection(program, polled),
{
    match polled {
        Ok(status) => Ok(status),
        Err(source) => Err(Error::InspectProcess { program, source }),
    }
}

/// Whether polling the process of `program` found it running.
pub open spec fn running<S>(program: Program, polled: Result<Option<ExitStatus>, S>) -> Result<
    bool,
    Error<S>,
> {
    match inspection(program, polled) {
        Ok(status) => Ok(status is None),
        Err(error) => Err(error),
    }
}

pub fn is_running<S>(program: Program, polled: Result<Option<ExitStatus>, S>) -> (result: Result<
    bool,
    Error<S>,
>)
    ensures
        result == running(program, polled),
{
    match try_wait(program, polled) {
        Ok(status) => Ok(status.is_none()),
        Err(error) => Err(error),
    }
}

/// A child process that leads a process group of its own. `C` is the
/// platform's handle of it.
#[derive(Debug, PartialEq, Eq)]
pub struct ManagedChild<C> {
    pub program: Program,
    pub child: C,
    pub process_group: i32,
}

/// The number that names the process group led by the process `pid`: the same
/// number, taken as a signed one.
pub open spec fn group_of(pid: u32) -> int {
    if pid < 0x8000_0000 {
        pid as int
    } else {
        pid - 0x1_0000_0000
    }
}

/// The process group that a child of `program` leads.
#[derive(Clone, Copy, Debug, PartialEq, Eq)]
pub struct ProcessGroup {
    pub program: Program,
    pub id: i32,
}

impl<C> ManagedChild<C> {
    /// The process group that the child leads.
    pub open spec fn leads(self) -> ProcessGroup {
        ProcessGroup { program: self.program, id: self.process_group }
    }

    pub fn group(&self) -> (group: ProcessGroup)
        ensures
            group == self.leads(),
    {
        ProcessGroup { program: self.program, id: self.process_group }
    }

    /// The managed form of a process of `program` that was just spawned.
    pub open spec fn of(program: Program, child: C, pid: u32) -> Self {
        ManagedChild { program, child, process_group: group_of(pid) as i32 }
    }
}

/// What spawning `program` from `executable` comes to. `outcome` holds the
/// handle of the process and, as long as it has not been reaped, its id.
pub open spec fn spawn_result<C, S>(
    program: Program,
    executable: Vec<u8>,
    outcome: Result<(C, Option<u32>), S>,
) -> Result<ManagedChild<C>, Error<S>> {
    match outcome {
        Err(source) => Err(Error::SpawnProcess { program, path: executable, source }),
        Ok((_, None)) => Err(Error::MissingProcessId { program }),
        Ok((child, Some(pid))) => Ok(ManagedChild::of(program, child, pid)),
    }
}

pub fn spawn_process_group<C, S>(
    program: Program,
    executable: Vec<u8>,
    outcome: Result<(C, Option<u32>), S>,
) -> (result: Result<ManagedChild<C>, Error<S>>)
    ensures
        result == spawn_result(program, executable, outcome),
        outcome matches Ok((_, Some(pid))) ==> result->Ok_0.process_group == group_of(pid),
{
    match outcome {
        Err(source) => Err(Error::SpawnProcess { program, path: executable, source }),
        Ok((child, id)) => match id {
            None => Err(Error::MissingProcessId { program }),
            Some(pid) => {
                let process_group: i32 = pid as i32;
                assert(pid < 0x8000_0000u32 ==> pid as i32 == pid) by (bit_vector);
                assert(pid >= 0x8000_0000u32 ==> pid as i32 == pid - 0x1_0000_0000) by (bit_vector);
                Ok(ManagedChild { program, child, process_group })
            },
        },
    }
}

/// The processes that make up a running VM.
#[derive(Debug, PartialEq, Eq)]
pub struct VmProcesses<C> {
    pub gvproxy: ManagedChild<C>,
    pub runner: ManagedChild<C>,
}

/// Finding out whether a VM still runs, by what is to be done next.
#[derive(Debug, PartialEq, Eq)]
pub enum VmInspection<S> {
    PollGvproxy,
    PollRunner,
    Finished { result: Result<bool, Error<S>> },
}

impl<S> VmInspection<S> {
    /// The step after this one, given what the poll found.
    pub open spec fn next(self, polled: Result<Option<ExitStatus>, S>) -> Self {
        match self {
            VmInspection::PollGvproxy => {
                if running(Program::Gvproxy, polled) == Ok::<bool, Error<S>>(true) {
                    VmInspection::PollRunner
                } else {
                    VmInspection::Finished { result: running(Program::Gvproxy, polled) }
                }
            },
            VmInspection::PollRunner => VmInspection::Finished {
                result: running(Program::Runner, polled),
            },
            VmInspection::Finished { .. } => self,
        }
    }

    pub fn advance(self, polled: Result<Option<ExitStatus>, S>) -> (step: Self)
        ensures
            step == self.next(polled),
    {
        match self {
            VmInspection::PollGvproxy => match is_running(Program::Gvproxy, polled) {
                Ok(true) => VmInspection::PollRunner,
                Ok(false) => VmInspection::Finished { result: Ok(false) },
                Err(error) => VmInspection::Finished { result: Err(error) },
            },
            VmInspection::PollRunner => VmInspection::Finished {
                result: is_running(Program::Runner, polled),
            },
            VmInspection::Finished { result } => VmInspection::Finished { result },
        }
    }
}

/// Begins to find out whether a VM still runs.
pub fn inspect_vm<S>() -> (step: VmInspection<S>)
    ensures
        step == VmInspection::<S>::PollGvproxy,
{
    VmInspection::PollGvproxy
}

/// A VM runs exactly if both of its processes were polled and neither had
/// exited. The runner is not polled unless gvproxy runs.
pub proof fn vm_runs_if_both_do<S>(
    gvproxy: Result<Option<ExitStatus>, S>,
    runner: Result<Option<ExitStatus>, S>,
)
    ensures
        ({
            let end = VmInspection::<S>::PollGvproxy.next(gvproxy).next(runner);
            &&& end is Finished
            &&& end->result == Ok::<bool, Error<S>>(true) <==> gvproxy == Ok::<
                Option<ExitStatus>,
                S,
            >(None) && runner == Ok::<Option<ExitStatus>, S>(None)
            &&& VmInspection::<S>::PollGvproxy.next(gvproxy) is PollRunner <==> gvproxy == Ok::<
                Option<ExitStatus>,
                S,
            >(None)
        }),
{
}

/// What a poll says of a process is passed on as it is: the process runs
/// exactly if no status was found. A poll that fails is no statement on the
/// process, and is reported with the program that was polled.
pub proof fn polls_are_passed_on<S>(program: Program, polled: Result<Option<ExitStatus>, S>)
    ensures
        polled matches Ok(status) ==> {
            &&& inspection(program, polled) == Ok::<Option<ExitStatus>, Error<S>>(status)
            &&& running(program, polled) == Ok::<bool, Error<S>>(status is None)
        },
        polled matches Err(source) ==> {
            let error = Error::InspectProcess { program, source };
            &&& inspection(program, polled) == Err::<Option<ExitStatus>, Error<S>>(error)
            &&& running(program, polled) == Err::<bool, Error<S>>(error)
        },
{
}

/// A signal counts as sent if it was, or if there was no process to send it to.
/// No other failure is forgiven.
pub proof fn only_a_missing_group_is_forgiven(outcome: Result<(), i32>)
    ensures
        signal_sent(outcome) <==> match outcome {
            Ok(_) => true,
            Err(code) => code == 3,
        },
{
}

/// A process that was spawned keeps its program and its handle, and leads the
/// group whose number agrees with its own modulo the numbers that fit.
pub proof fn spawned_process_leads_its_group<C, S>(
    program: Program,
    executable: Vec<u8>,
    child: C,
    pid: u32,
)
    ensures
        ({
            let spawned = spawn_result::<C, S>(program, executable, Ok((child, Some(pid))));
            &&& spawned matches Ok(managed)
            &&& managed.program == program
            &&& managed.child == child
            &&& (managed.process_group - pid) % 0x1_0000_0000 == 0
            &&& managed.leads().program == program
            &&& managed.leads().id == managed.process_group
        }),
{
    assert(group_of(pid) == pid || group_of(pid) == pid - 0x1_0000_0000);
}

/// A process that could not be spawned, or whose number is not known, is not
/// managed. The error names the program, and the first kind its executable too.
pub proof fn failed_spawn_names_its_program<C, S>(
    program: Program,
    executable: Vec<u8>,
    source: S,
    child: C,
)
    ensures
        spawn_result::<C, S>(program, executable, Err(source)) == Err::<
            ManagedChild<C>,
            Error<S>,
        >(Error::SpawnProcess { program, path: executable, source }),
        spawn_result::<C, S>(program, executable, Ok((child, None))) == Err::<
            ManagedChild<C>,
            Error<S>,
        >(Error::MissingProcessId { program }),
{
}

/// Whether a VM runs is decided by the first of its processes, gvproxy before
/// the runner, that does not run or cannot be polled; such a poll is reported as
/// that of its own program. Where there is none, the VM runs.
pub proof fn first_dead_process_decides<S>(
    gvproxy: Result<Option<ExitStatus>, S>,
    runner: Result<Option<ExitStatus>, S>,
)
    ensures
        ({
            let end = VmInspection::<S>::PollGvproxy.next(gvproxy).next(runner);
            &&& end matches VmInspection::Finished { result }
            &&& gvproxy matches Err(source) ==> result == Err::<bool, Error<S>>(
                Error::InspectProcess { program: Program::Gvproxy, source },
            )
            &&& gvproxy matches Ok(Some(_)) ==> result == Ok::<bool, Error<S>>(false)
            &&& gvproxy matches Ok(None) ==> {
                &&& runner matches Err(source) ==> result == Err::<bool, Error<S>>(
                    Error::InspectProcess { program: Program::Runner, source },
                )
                &&& runner matches Ok(status) ==> result == Ok::<bool, Error<S>>(status is None)
            }
            &&& end.next(gvproxy) == end
        }),
{
}

} // verus!
