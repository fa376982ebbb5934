//! The daemon's configuration.

use crate::decimal::{decimal, decimal_reads_back, decimal_value, to_decimal};
use crate::error::{Error, Program};
use crate::path::{
    display, join, joined, joined_is_injective, joined_is_made_of_its_parts, joined_lies_below,
    utf8_lossy, SEPARATOR,
};
use crate::time::Duration;
use vstd::prelude::*;
use vstd::slice::slice_to_vec;
use vstd::string::*;
use vstd::utf8::*;

verus! {

/// The directory of the daemon's runtime state, where none is given.
pub const DEFAULT_RUNTIME_DIR: &'static str = "/var/run/microvm-builder";

/// The name of the daemon's socket in the runtime directory.
pub const DAEMON_SOCKET_NAME: &'static str = "daemon.sock";

/// The name of vfkit's socket in the runtime directory.
pub const VFKIT_SOCKET_NAME: &'static str = "vfkit.sock";

/// The host port forwarded to the guest's SSH server, where none is given.
pub const DEFAULT_SSH_PORT: u16 = 2222;

/// After how many idle seconds the VM is stopped, where nothing is given.
pub const DEFAULT_IDLE_TIMEOUT_SECS: u64 = 120;

/// The largest number of seconds that a whole VM startup may take, where
/// nothing is given.
pub const DEFAULT_START_TIMEOUT_SECS: u64 = 120;

/// How many seconds lie between `SIGTERM` and `SIGKILL`, where nothing is given.
pub const DEFAULT_STOP_TIMEOUT_SECS: u64 = 10;

/// What the daemon is told on its command line.
#[derive(Debug, PartialEq, Eq)]
pub struct DaemonArgs {
    pub runtime_dir: Vec<u8>,
    pub gvproxy: Vec<u8>,
    pub vfkit: Vec<u8>,
    pub runner: Vec<u8>,
    pub ssh_port: u16,
    pub idle_timeout: u64,
    pub start_timeout: u64,
    pub stop_timeout: u64,
}

impl DaemonArgs {
    /// The path given for a program.
    pub open spec fn path_of(self, program: Program) -> Vec<u8> {
        match program {
            Program::Gvproxy => self.gvproxy,
            Program::Vfkit => self.vfkit,
            Program::Runner => self.runner,
        }
    }

    pub fn executable(&self, program: Program) -> (path: &Vec<u8>)
        ensures
            *path == self.path_of(program),
    {
        match program {
            Program::Gvproxy => &self.gvproxy,
            Program::Vfkit => &self.vfkit,
            Program::Runner => &self.runner,
        }
    }
}

/// The configuration that the daemon works with.
#[derive(Debug, PartialEq, Eq)]
pub struct Config {
    pub runtime_dir: Vec<u8>,
    pub daemon_socket: Vec<u8>,
    pub vfkit_socket: Vec<u8>,
    pub gvproxy: Vec<u8>,
    pub vfkit: Vec<u8>,
    pub runner: Vec<u8>,
    pub ssh_port: u16,
    pub idle_timeout: Duration,
    pub start_timeout: Duration,
    pub stop_timeout: Duration,
}

/// The path of the daemon's socket, for the daemon and for its clients.
pub open spec fn daemon_socket_path(runtime_dir: Seq<u8>) -> Seq<u8> {
    joined(runtime_dir, DAEMON_SOCKET_NAME.spec_bytes())
}

/// The path of vfkit's socket.
pub open spec fn vfkit_socket_path(runtime_dir: Seq<u8>) -> Seq<u8> {
    joined(runtime_dir, VFKIT_SOCKET_NAME.spec_bytes())
}

/// Where a client finds the daemon that was given the same runtime directory.
pub fn daemon_socket_in(runtime_dir: &Vec<u8>) -> (path: Vec<u8>)
    ensures
        path@ == daemon_socket_path(runtime_dir@),
{
    join(runtime_dir, DAEMON_SOCKET_NAME.as_bytes())
}

impl Config {
    /// Whether this is the configuration that `args` ask for.
    pub open spec fn fits(self, args: DaemonArgs) -> bool {
        &&& self.runtime_dir == args.runtime_dir
        &&& self.daemon_socket@ == daemon_socket_path(args.runtime_dir@)
        &&& self.vfkit_socket@ == vfkit_socket_path(args.runtime_dir@)
        &&& self.gvproxy == args.gvproxy
        &&& self.vfkit == args.vfkit
        &&& self.runner == args.runner
        &&& self.ssh_port == args.ssh_port
        &&& self.idle_timeout == Duration::of_secs(args.idle_timeout)
        &&& self.start_timeout == Duration::of_secs(args.start_timeout)
        &&& self.stop_timeout == Duration::of_secs(args.stop_timeout)
    }

    fn from_args(args: DaemonArgs) -> (config: Config)
        ensures
            config.fits(args),
    {
        Config {
            daemon_socket: daemon_socket_in(&args.runtime_dir),
            vfkit_socket: join(&args.runtime_dir, VFKIT_SOCKET_NAME.as_bytes()),
            runtime_dir: args.runtime_dir,
            gvproxy: args.gvproxy,
            vfkit: args.vfkit,
            runner: args.runner,
            ssh_port: args.ssh_port,
            idle_timeout: Duration::from_secs(args.idle_timeout),
            start_timeout: Duration::from_secs(args.start_timeout),
            stop_timeout: Duration::from_secs(args.stop_timeout),
        }
    }

    /// Whether `args` are those that gvproxy is started with: the port to
    /// forward, and the socket to meet vfkit at, whose path is decoded if it is
    /// valid UTF-8.
    pub open spec fn starts_gvproxy_with(self, args: Seq<String>) -> bool {
        &&& are_gvproxy_args(args, self.ssh_port, utf8_lossy(self.vfkit_socket@))
        &&& valid_utf8(self.vfkit_socket@) ==> are_gvproxy_args(
            args,
            self.ssh_port,
            decode_utf8(self.vfkit_socket@),
        )
    }

    pub fn gvproxy_args(&self) -> (args: Vec<String>)
        ensures
            self.starts_gvproxy_with(args@),
    {
        let socket = display(&self.vfkit_socket);
        gvproxy_args_for(self.ssh_port, socket.as_str())
    }
}

/// Whether `args` make gvproxy forward `ssh_port` and meet vfkit at `socket`.
pub open spec fn are_gvproxy_args(args: Seq<String>, ssh_port: u16, socket: Seq<char>) -> bool {
    &&& args.len() == 4
    &&& args[0]@ == "--ssh-port"@
    &&& args[1]@ == decimal(ssh_port as nat)
    &&& args[2]@ == "--listen-vfkit"@
    &&& args[3]@ == "unixgram://"@ + socket
}

pub fn gvproxy_args_for(ssh_port: u16, socket: &str) -> (args: Vec<String>)
    ensures
        are_gvproxy_args(args@, ssh_port, socket@),
{
    let mut address = String::from_str("unixgram://");
    address.append(socket);
    let mut args: Vec<String> = Vec::new();
    args.push(String::from_str("--ssh-port"));
    args.push(to_decimal(ssh_port));
    args.push(String::from_str("--listen-vfkit"));
    args.push(address);
    args
}

/// Whether a program may be used, where `metadata` says if its path is that of
/// a regular file.
pub open spec fn validity<S>(
    path: Vec<u8>,
    program: Program,
    metadata: Result<bool, S>,
) -> Result<(), Error<S>> {
    match metadata {
        Err(source) => Err(Error::ReadMetadata { program, path, source }),
        Ok(false) => Err(Error::NotAFile { program, path }),
        Ok(true) => Ok(()),
    }
}

pub fn validate_file<S>(path: Vec<u8>, program: Program, metadata: Result<bool, S>) -> (result:
    Result<(), Error<S>>)
    ensures
        result == validity(path, program, metadata),
{
    match metadata {
        Err(source) => Err(Error::ReadMetadata { program, path, source }),
        Ok(is_file) => {
            if is_file {
                Ok(())
            } else {
                Err(Error::NotAFile { program, path })
            }
        },
    }
}

/// The making of a configuration, by what is to be done next.
#[derive(Debug, PartialEq, Eq)]
pub enum ConfigLoad<S> {
    /// Look whether the path given for this program is that of a regular file.
    ReadMetadata { program: Program, args: DaemonArgs },
    /// Nothing is left to do.
    Finished { result: Result<Config, Error<S>> },
}

impl<S> ConfigLoad<S> {
    /// Whether `step` comes after this one once `metadata` is known: gvproxy,
    /// vfkit and the runner are looked at in this order, and the first that is
    /// no regular file ends it.
    pub open spec fn leads_to(self, metadata: Result<bool, S>, step: Self) -> bool {
        match self {
            ConfigLoad::ReadMetadata { program, args } => {
                if metadata == Ok::<bool, S>(true) {
                    match program {
                        Program::Gvproxy => step == (ConfigLoad::<S>::ReadMetadata {
                            program: Program::Vfkit,
                            args,
                        }),
                        Program::Vfkit => step == (ConfigLoad::<S>::ReadMetadata {
                            program: Program::Runner,
                            args,
                        }),
                        Program::Runner => {
                            &&& step matches ConfigLoad::Finished { result: Ok(config) }
                            &&& config.fits(args)
                        },
                    }
                } else {
                    &&& step matches ConfigLoad::Finished { result: Err(error) }
                    &&& refused(args, program, metadata, error)
                }
            },
            ConfigLoad::Finished { .. } => step == self,
        }
    }

    pub fn advance(self, metadata: Result<bool, S>) -> (step: Self)
        ensures
            self.leads_to(metadata, step),
    {
        match self {
            ConfigLoad::ReadMetadata { program, args } => {
                let path = slice_to_vec(args.executable(program).as_slice());
                match validate_file(path, program, metadata) {
                    Err(error) => ConfigLoad::Finished { result: Err(error) },
                    Ok(_) => match program {
                        Program::Gvproxy => ConfigLoad::ReadMetadata {
                            program: Program::Vfkit,
                            args,
                        },
                        Program::Vfkit => ConfigLoad::ReadMetadata {
                            program: Program::Runner,
                            args,
                        },
                        Program::Runner => ConfigLoad::Finished {
                            result: Ok(Config::from_args(args)),
                        },
                    },
                }
            },
            ConfigLoad::Finished { result } => ConfigLoad::Finished { result },
        }
    }
}

/// Whether `error` is the reason for which a program's path is refused.
pub open spec fn refused<S>(
    args: DaemonArgs,
    program: Program,
    metadata: Result<bool, S>,
    error: Error<S>,
) -> bool {
    match (metadata, error) {
        (Err(source), Error::ReadMetadata { program: named, path, source: carried }) => {
            &&& named == program
            &&& path@ == args.path_of(program)@
            &&& carried == source
        },
        (Ok(false), Error::NotAFile { program: named, path }) => {
            &&& named == program
            &&& path@ == args.path_of(program)@
        },
        _ => false,
    }
}

/// Begins to make the configuration that `args` ask for.
pub fn load_config<S>(args: DaemonArgs) -> (step: ConfigLoad<S>)
    ensures
        step == (ConfigLoad::<S>::ReadMetadata { program: Program::Gvproxy, args }),
{
    ConfigLoad::ReadMetadata { program: Program::Gvproxy, args }
}

/// A configuration is made exactly if all three programs are regular files,
/// and it is the one that the arguments ask for. Otherwise the first program
/// that is none is the one that the error names.
pub proof fn config_needs_three_files<S>(
    args: DaemonArgs,
    gvproxy: Result<bool, S>,
    vfkit: Result<bool, S>,
    runner: Result<bool, S>,
    steps: (ConfigLoad<S>, ConfigLoad<S>, ConfigLoad<S>),
)
    requires
        (ConfigLoad::ReadMetadata { program: Program::Gvproxy, args }).leads_to(gvproxy, steps.0),
        steps.0.leads_to(vfkit, steps.1),
        steps.1.leads_to(runner, steps.2),
    ensures
        steps.2 is Finished,
        ({
            let file = Ok::<bool, S>(true);
            let result = steps.2->result;
            &&& gvproxy == file && vfkit == file && runner == file ==> {
                &&& result matches Ok(config)
                &&& config.fits(args)
            }
            &&& gvproxy != file ==> {
                &&& result matches Err(error)
                &&& refused(args, Program::Gvproxy, gvproxy, error)
            }
            &&& gvproxy == file && vfkit != file ==> {
                &&& result matches Err(error)
                &&& refused(args, Program::Vfkit, vfkit, error)
            }
            &&& gvproxy == file && vfkit == file && runner != file ==> {
                &&& result matches Err(error)
                &&& refused(args, Program::Runner, runner, error)
            }
        }),
{
}

/// A client that is given the daemon's runtime directory looks for the daemon
/// where the daemon listens.
pub proof fn client_and_daemon_meet(args: DaemonArgs, config: Config, client: Vec<u8>)
    requires
        config.fits(args),
        client@ == daemon_socket_path(args.runtime_dir@),
    ensures
        client@ == config.daemon_socket@,
{
}

proof fn lemma_socket_names()
    ensures
        DAEMON_SOCKET_NAME.spec_bytes().len() == 11,
        DAEMON_SOCKET_NAME.spec_bytes().first() != SEPARATOR,
        VFKIT_SOCKET_NAME.spec_bytes().len() == 10,
        VFKIT_SOCKET_NAME.spec_bytes().first() != SEPARATOR,
{
    reveal_strlit("daemon.sock");
    reveal_strlit("vfkit.sock");
    assert(is_ascii(DAEMON_SOCKET_NAME));
    assert(is_ascii(VFKIT_SOCKET_NAME));
    is_ascii_spec_bytes(DAEMON_SOCKET_NAME);
    is_ascii_spec_bytes(VFKIT_SOCKET_NAME);
    assert(DAEMON_SOCKET_NAME@[0] == 'd');
    assert(VFKIT_SOCKET_NAME@[0] == 'v');
    assert('d' as u8 == 0x64u8 && 'v' as u8 == 0x76u8);
}

/// The daemon's socket and vfkit's are two different files, and the paths of
/// both begin with that of the runtime directory.
pub proof fn sockets_are_apart(args: DaemonArgs, config: Config)
    requires
        config.fits(args),
    ensures
        config.daemon_socket@ != config.vfkit_socket@,
        config.runtime_dir@.is_prefix_of(config.daemon_socket@),
        config.runtime_dir@.is_prefix_of(config.vfkit_socket@),
{
    lemma_socket_names();
    joined_lies_below(args.runtime_dir@, DAEMON_SOCKET_NAME.spec_bytes());
    joined_lies_below(args.runtime_dir@, VFKIT_SOCKET_NAME.spec_bytes());
    if config.daemon_socket@ == config.vfkit_socket@ {
        joined_is_injective(
            args.runtime_dir@,
            DAEMON_SOCKET_NAME.spec_bytes(),
            VFKIT_SOCKET_NAME.spec_bytes(),
        );
    }
}

/// A configuration holds what the arguments say: the paths and the port as they
/// are, and each timeout as so many seconds as were given for that timeout,
/// whatever was given for the others.
pub proof fn config_holds_what_was_given(args: DaemonArgs, config: Config)
    requires
        config.fits(args),
    ensures
        config.runtime_dir@ == args.runtime_dir@,
        config.gvproxy@ == args.gvproxy@,
        config.vfkit@ == args.vfkit@,
        config.runner@ == args.runner@,
        config.ssh_port == args.ssh_port,
        1_000_000_000 * config.idle_timeout.secs + config.idle_timeout.nanos == 1_000_000_000
            * args.idle_timeout,
        1_000_000_000 * config.start_timeout.secs + config.start_timeout.nanos == 1_000_000_000
            * args.start_timeout,
        1_000_000_000 * config.stop_timeout.secs + config.stop_timeout.nanos == 1_000_000_000
            * args.stop_timeout,
{
}

/// No argument has a say in what is configured by another: where two command
/// lines agree on one value, the configurations made from them agree on it.
pub proof fn arguments_do_not_interfere(
    args: DaemonArgs,
    config: Config,
    other_args: DaemonArgs,
    other: Config,
)
    requires
        config.fits(args),
        other.fits(other_args),
    ensures
        args.idle_timeout == other_args.idle_timeout <==> config.idle_timeout.total()
            == other.idle_timeout.total(),
        args.start_timeout == other_args.start_timeout <==> config.start_timeout.total()
            == other.start_timeout.total(),
        args.stop_timeout == other_args.stop_timeout <==> config.stop_timeout.total()
            == other.stop_timeout.total(),
        args.ssh_port == other_args.ssh_port <==> config.ssh_port == other.ssh_port,
        args.runtime_dir@ == other_args.runtime_dir@ ==> {
            &&& config.daemon_socket@ == other.daemon_socket@
            &&& config.vfkit_socket@ == other.vfkit_socket@
        },
{
}

/// Both sockets lie in the runtime directory: the path of each ends in its own
/// name, and what stands before that is the directory's path and at most a
/// slash.
pub proof fn sockets_lie_in_the_runtime_directory(args: DaemonArgs, config: Config)
    requires
        config.fits(args),
    ensures
        lies_in(config.daemon_socket@, args.runtime_dir@, "daemon.sock"@),
        lies_in(config.vfkit_socket@, args.runtime_dir@, "vfkit.sock"@),
        daemon_socket_path(args.runtime_dir@) == config.daemon_socket@,
{
    let dir = args.runtime_dir@;
    lemma_socket_names();
    is_ascii_spec_bytes(DAEMON_SOCKET_NAME);
    is_ascii_spec_bytes(VFKIT_SOCKET_NAME);
    joined_is_made_of_its_parts(dir, DAEMON_SOCKET_NAME.spec_bytes());
    joined_is_made_of_its_parts(dir, VFKIT_SOCKET_NAME.spec_bytes());
    reveal_strlit("daemon.sock");
    reveal_strlit("vfkit.sock");
    assert(is_ascii(DAEMON_SOCKET_NAME));
    assert(is_ascii(VFKIT_SOCKET_NAME));
    assert(DAEMON_SOCKET_NAME.spec_bytes() =~= Seq::new(11, |i: int| "daemon.sock"@[i] as u8));
    assert(VFKIT_SOCKET_NAME.spec_bytes() =~= Seq::new(10, |i: int| "vfkit.sock"@[i] as u8));
}

/// Whether `path` is made of `dir`, a slash unless `dir` is empty or ends with
/// one, and the characters of `name`, a byte for each.
pub open spec fn lies_in(path: Seq<u8>, dir: Seq<u8>, name: Seq<char>) -> bool {
    let slashes: int = if dir.len() == 0 || dir.last() == 0x2fu8 {
        0
    } else {
        1
    };
    &&& path.len() == dir.len() + slashes + name.len()
    &&& path.take(dir.len() as int) == dir
    &&& slashes == 1 ==> path[dir.len() as int] == 0x2fu8
    &&& path.skip(dir.len() + slashes) == Seq::new(name.len(), |i: int| name[i] as u8)
}

/// The first of gvproxy, vfkit and the runner that is no regular file, or that
/// cannot be looked at, is what the making of a configuration fails with: the
/// error names that program, its path as it was given, and what went wrong. They
/// are looked at in this order, and one that is a file never stands in the way.
pub proof fn first_unusable_program_is_named<S>(
    args: DaemonArgs,
    program: Program,
    metadata: Result<bool, S>,
    step: ConfigLoad<S>,
)
    requires
        (ConfigLoad::ReadMetadata { program, args }).leads_to(metadata, step),
    ensures
        metadata matches Err(source) ==> {
            &&& step matches ConfigLoad::Finished { result: Err(error) }
            &&& error matches Error::ReadMetadata { program: named, path, source: carried }
            &&& named == program && carried == source
            &&& program is Gvproxy ==> path@ == args.gvproxy@
            &&& program is Vfkit ==> path@ == args.vfkit@
            &&& program is Runner ==> path@ == args.runner@
        },
        metadata matches Ok(false) ==> {
            &&& step matches ConfigLoad::Finished { result: Err(error) }
            &&& error matches Error::NotAFile { program: named, path }
            &&& named == program
            &&& program is Gvproxy ==> path@ == args.gvproxy@
            &&& program is Vfkit ==> path@ == args.vfkit@
            &&& program is Runner ==> path@ == args.runner@
        },
        metadata matches Ok(true) ==> {
            &&& program is Gvproxy ==> step == (ConfigLoad::<S>::ReadMetadata {
                program: Program::Vfkit,
                args,
            })
            &&& program is Vfkit ==> step == (ConfigLoad::<S>::ReadMetadata {
                program: Program::Runner,
                args,
            })
            &&& program is Runner ==> {
                &&& step matches ConfigLoad::Finished { result: Ok(config) }
                &&& config.fits(args)
            }
        },
{
}

/// A program may be used exactly if its path was found to be that of a regular
/// file; else the error names the program and the path.
pub proof fn only_files_are_valid<S>(path: Vec<u8>, program: Program, source: S)
    ensures
        validity::<S>(path, program, Ok(true)) is Ok,
        validity::<S>(path, program, Ok(false)) == Err::<(), Error<S>>(
            Error::NotAFile { program, path },
        ),
        validity::<S>(path, program, Err(source)) == Err::<(), Error<S>>(
            Error::ReadMetadata { program, path, source },
        ),
{
}

/// What the making of a configuration has come to stays.
pub proof fn finished_config_stays<S>(
    result: Result<Config, Error<S>>,
    metadata: Result<bool, S>,
    step: ConfigLoad<S>,
)
    requires
        (ConfigLoad::Finished { result }).leads_to(metadata, step),
    ensures
        step == (ConfigLoad::Finished { result }),
{
}

/// The path that is looked at for a program is the one given for it.
pub proof fn each_program_has_its_path(args: DaemonArgs)
    ensures
        args.path_of(Program::Gvproxy) == args.gvproxy,
        args.path_of(Program::Vfkit) == args.vfkit,
        args.path_of(Program::Runner) == args.runner,
{
}

/// gvproxy is told the configured port, in digits that read back as it, and the
/// address of vfkit's socket, and nothing else.
pub proof fn gvproxy_is_told_port_and_socket(config: Config, args: Seq<String>)
    requires
        config.starts_gvproxy_with(args),
    ensures
        args.len() == 4,
        args[0]@ == "--ssh-port"@,
        decimal_value(args[1]@) == config.ssh_port,
        forall|i: int| 0 <= i < args[1]@.len() ==> 48 <= #[trigger] args[1]@[i] as int <= 57,
        args[1]@.len() > 1 ==> args[1]@[0] as int != 48,
        args[2]@ == "--listen-vfkit"@,
        args[3]@ == "unixgram://"@ + utf8_lossy(config.vfkit_socket@),
        valid_utf8(config.vfkit_socket@) ==> args[3]@ == "unixgram://"@ + decode_utf8(
            config.vfkit_socket@,
        ),
{
    decimal_reads_back(config.ssh_port as nat);
}

/// The same holds of the arguments for any port and any text of an address.
pub proof fn gvproxy_args_tell_port_and_socket(args: Seq<String>, port: u16, socket: Seq<char>)
    requires
        are_gvproxy_args(args, port, socket),
    ensures
        args.len() == 4,
        args[0]@ == "--ssh-port"@,
        decimal_value(args[1]@) == port,
        args[2]@ == "--listen-vfkit"@,
        args[3]@ == "unixgram://"@ + socket,
{
    decimal_reads_back(port as nat);
}

} // verus!
