//! What can go wrong, and the plain values that the errors are made of.

use vstd::prelude::*;

verus! {

/// The executables that the manager is configured with.
#[derive(Clone, Copy, Debug, PartialEq, Eq, Structural)]
pub enum Program {
    Gvproxy,
    Vfkit,
    Runner,
}

impl Program {
    /// The name by which messages refer to the program.
    pub open spec fn label(self) -> Seq<char> {
        match self {
            Program::Gvproxy => "gvproxy"@,
            Program::Vfkit => "vfkit"@,
            Program::Runner => "runner"@,
        }
    }

    pub fn name(self) -> (name: &'static str)
        ensures
            name@ == self.label(),
    {
        match self {
            Program::Gvproxy => "gvproxy",
            Program::Vfkit => "vfkit",
            Program::Runner => "runner",
        }
    }
}

/// How a process ended, as the wait status that the kernel reports.
#[derive(Clone, Copy, Debug, PartialEq, Eq, Structural)]
pub struct ExitStatus {
    pub raw: i32,
}

/// The signals that are sent to process groups.
#[derive(Clone, Copy, Debug, PartialEq, Eq, Structural)]
pub enum Signal {
    Term,
    Kill,
}

/// The signals that end the daemon.
#[derive(Clone, Copy, Debug, PartialEq, Eq, Structural)]
pub enum StopSignal {
    Terminate,
    Interrupt,
}

/// The kinds of I/O failure that decisions depend on.
#[derive(Clone, Copy, Debug, PartialEq, Eq, Structural)]
pub enum IoErrorKind {
    NotFound,
    Other,
}

/// A failed I/O operation: its kind, and the failure itself.
#[derive(Debug, PartialEq, Eq)]
pub struct IoFailure<S> {
    pub kind: IoErrorKind,
    pub source: S,
}

/// The errors of the manager. `S` is the platform's I/O error, which is only
/// carried along. Paths are the bytes that the platform uses for them.
#[derive(Debug, PartialEq, Eq)]
pub enum Error<S> {
    InspectProcess { program: Program, source: S },
    CreateRuntimeDirectory { path: Vec<u8>, source: S },
    RemoveFile { path: Vec<u8>, source: S },
    BindDaemonSocket { path: Vec<u8>, source: S },
    AcceptConnection { source: S },
    InstallSignalHandler { stop: StopSignal, source: S },
    ConnectDaemon { path: Vec<u8>, source: S },
    ConnectBuilder { port: u16, source: S },
    ProxyTransport { source: S },
    SpawnProcess { program: Program, path: Vec<u8>, source: S },
    MissingProcessId { program: Program },
    SignalProcessGroup { program: Program, signal: Signal, errno: i32 },
    ReapProcess { program: Program, source: S },
    ProcessExitedBeforePath { program: Program, path: Vec<u8>, status: ExitStatus },
    PathTimeout { program: Program, path: Vec<u8> },
    ProcessExitedBeforeBuilder { program: Program, status: ExitStatus },
    BuilderTimeout { port: u16 },
    ReadMetadata { program: Program, path: Vec<u8>, source: S },
    NotAFile { program: Program, path: Vec<u8> },
}

/// Messages call each program by the name of its executable, and no two alike.
pub proof fn programs_are_told_apart(one: Program, other: Program)
    ensures
        one.label() == other.label() <==> one == other,
        Program::Gvproxy.label() == "gvproxy"@,
        Program::Vfkit.label() == "vfkit"@,
        Program::Runner.label() == "runner"@,
{
    reveal_strlit("gvproxy");
    reveal_strlit("vfkit");
    reveal_strlit("runner");
    assert("gvproxy"@.len() == 7 && "vfkit"@.len() == 5 && "runner"@.len() == 6);
}

} // verus!
