use microvm_builder::builder::{wait_for_builder, BuilderEvent, BuilderWait};
use microvm_builder::config::{Config, ConfigLoad, DaemonArgs};
use microvm_builder::error::{
    Error, ExitStatus, IoErrorKind, IoFailure, Program, StopSignal,
};
use microvm_builder::files::{
    bind_daemon_socket, create_runtime_directory, install_signal_handler, remove_file_if_present,
};
use microvm_builder::process::{
    inspect_vm, is_running, spawn_process_group, try_wait, ManagedChild, ProcessGroup, VmInspection,
    VmProcesses,
};
use microvm_builder::time::Duration;
use microvm_builder::vm::{
    start_vm_processes, terminate_vm, StartEvent, StartVm, StopProcesses, VmTask,
};
use microvm_builder::wait::{wait_for_path, PathEvent, PathWait};

fn config() -> Config {
    let args = DaemonArgs {
        runtime_dir: b"/r".to_vec(),
        gvproxy: b"/g".to_vec(),
        vfkit: b"/v".to_vec(),
        runner: b"/n".to_vec(),
        ssh_port: 22,
        idle_timeout: 1,
        start_timeout: 2,
        stop_timeout: 3,
    };
    let load = microvm_builder::config::load_config::<u8>(args);
    match load.advance(Ok(true)).advance(Ok(true)).advance(Ok(true)) {
        ConfigLoad::Finished { result: Ok(config) } => config,
        step => panic!("{:?}", step),
    }
}

fn child(program: Program, id: u32) -> ManagedChild<u32> {
    ManagedChild { program, child: id, process_group: id as i32 }
}

fn gvproxy() -> ManagedChild<u32> {
    child(Program::Gvproxy, 11)
}

fn runner() -> ManagedChild<u32> {
    child(Program::Runner, 12)
}

fn gvproxy_group() -> ProcessGroup {
    ProcessGroup { program: Program::Gvproxy, id: 11 }
}

fn runner_group() -> ProcessGroup {
    ProcessGroup { program: Program::Runner, id: 12 }
}

fn done() -> StartEvent<u32, u8> {
    StartEvent::Done(Ok(()))
}

fn failed() -> StartEvent<u32, u8> {
    StartEvent::Done(Err(Error::BuilderTimeout { port: 22 }))
}

fn start(events: Vec<StartEvent<u32, u8>>) -> StartVm<u32, u8> {
    let mut step = start_vm_processes(&config(), secs(100));
    for event in events {
        step = step.advance(event);
    }
    step
}

fn secs(secs: u64) -> Duration {
    Duration { secs, nanos: 0 }
}

#[test]
fn a_start_goes_through_its_tasks() {
    let config = config();
    let step = start(vec![]);
    assert_eq!(step.task(&config), VmTask::CreateDirectory { path: b"/r".to_vec() });
    let step = step.advance(done());
    assert_eq!(step.task(&config), VmTask::RemoveFile { path: b"/r/vfkit.sock".to_vec() });
    let step = step.advance(done());
    assert_eq!(
        step.task(&config),
        VmTask::Spawn {
            program: Program::Gvproxy,
            executable: b"/g".to_vec(),
            args: config.gvproxy_args(),
        }
    );
    let step = step.advance(StartEvent::Spawned(Ok(gvproxy())));
    assert_eq!(
        step.task(&config),
        VmTask::WaitForPath {
            program: Program::Gvproxy,
            path: b"/r/vfkit.sock".to_vec(),
            deadline: 102_000_000_000,
        }
    );
    let step = step.advance(done());
    assert_eq!(
        step.task(&config),
        VmTask::Spawn { program: Program::Runner, executable: b"/n".to_vec(), args: vec![] }
    );
    let step = step.advance(StartEvent::Spawned(Ok(runner())));
    assert_eq!(step.task(&config), VmTask::WaitForBuilder { port: 22, deadline: 102_000_000_000 });
    let step = step.advance(done());
    assert_eq!(step.task(&config), VmTask::Nothing);
    assert_eq!(
        step,
        StartVm::Finished { result: Ok(VmProcesses { gvproxy: gvproxy(), runner: runner() }) }
    );
}

/// A start that began at 1000 seconds, may take 120, and awaits the socket.
fn slow_start() -> (Config, StartVm<u32, u8>) {
    let config = Config { start_timeout: secs(120), ..config() };
    let step = start_vm_processes(&config, secs(1000))
        .advance(done())
        .advance(done())
        .advance(StartEvent::Spawned(Ok(gvproxy())));
    (config, step)
}

/// Answers the wait for the socket, which is there once the clock has been read
/// at each of `times`.
fn await_socket(task: VmTask, times: &[u64]) -> Result<(), Error<u8>> {
    let mut step = match task {
        VmTask::WaitForPath { program, path, deadline } => wait_for_path(path, program, deadline),
        task => panic!("{:?}", task),
    };
    for time in times {
        step = step
            .advance(PathEvent::PathChecked(false))
            .advance(PathEvent::Polled(Ok(None)))
            .advance(PathEvent::Clock(secs(*time)))
            .advance(PathEvent::Slept);
    }
    match step.advance(PathEvent::PathChecked(true)) {
        PathWait::Finished { result } => result,
        step => panic!("{:?}", step),
    }
}

/// Answers the wait for the builder, which is ready once the clock has been
/// read at each of `times`.
fn await_builder(task: VmTask, times: &[u64]) -> Result<(), Error<u8>> {
    let mut step = match task {
        VmTask::WaitForBuilder { port, deadline } => wait_for_builder(port, deadline),
        task => panic!("{:?}", task),
    };
    for time in times {
        step = step
            .advance(BuilderEvent::Probed(Err(111)))
            .advance(BuilderEvent::Polled(Ok(None)))
            .advance(BuilderEvent::Polled(Ok(None)))
            .advance(BuilderEvent::Clock(secs(*time)))
            .advance(BuilderEvent::Slept);
    }
    match step.advance(BuilderEvent::Probed(Ok(true))) {
        BuilderWait::Finished { result } => result,
        step => panic!("{:?}", step),
    }
}

#[test]
fn the_start_timeout_bounds_the_whole_start() {
    let (config, step) = slow_start();
    let socket = await_socket(step.task(&config), &[1000, 1050, 1099]);
    let step = step
        .advance(StartEvent::Done(socket))
        .advance(StartEvent::Spawned(Ok(runner())));
    let builder = await_builder(step.task(&config), &[1100, 1119, 1120, 1200]);
    assert_eq!(builder, Err(Error::BuilderTimeout { port: 22 }));
    assert_eq!(
        step.advance(StartEvent::Done(builder)).advance(done()).advance(done()),
        StartVm::Finished { result: Err(Error::BuilderTimeout { port: 22 }) }
    );
}

#[test]
fn a_start_within_its_timeout_succeeds() {
    let (config, step) = slow_start();
    let socket = await_socket(step.task(&config), &[1000, 1050, 1099]);
    let step = step
        .advance(StartEvent::Done(socket))
        .advance(StartEvent::Spawned(Ok(runner())));
    let builder = await_builder(step.task(&config), &[1100, 1119]);
    assert_eq!(
        step.advance(StartEvent::Done(builder)),
        StartVm::Finished { result: Ok(VmProcesses { gvproxy: gvproxy(), runner: runner() }) }
    );
}

#[test]
fn a_start_whose_socket_is_late_times_out() {
    let (config, step) = slow_start();
    let socket = await_socket(step.task(&config), &[1119, 1120]);
    let timeout = || Error::PathTimeout {
        program: Program::Gvproxy,
        path: b"/r/vfkit.sock".to_vec(),
    };
    assert_eq!(socket, Err(timeout()));
    assert_eq!(
        step.advance(StartEvent::Done(socket)).advance(done()),
        StartVm::Finished { result: Err(timeout()) }
    );
}

#[test]
fn a_start_timeout_of_any_length_has_a_deadline() {
    let longest = Duration { secs: u64::MAX, nanos: 999_999_999 };
    let config = Config { start_timeout: longest, ..config() };
    let step: StartVm<u32, u8> = start_vm_processes(&config, longest);
    assert_eq!(
        step,
        StartVm::CreateDirectory { deadline: 36_893_488_147_419_103_231_999_999_998 }
    );
}

#[test]
fn a_start_that_spawned_nothing_takes_nothing_back() {
    let timeout = || StartVm::Finished { result: Err(Error::BuilderTimeout { port: 22 }) };
    assert_eq!(start(vec![failed()]), timeout());
    assert_eq!(start(vec![done(), failed()]), timeout());
    assert_eq!(
        start(vec![
            done(),
            done(),
            StartEvent::Spawned(Err(Error::MissingProcessId { program: Program::Gvproxy })),
        ]),
        StartVm::Finished { result: Err(Error::MissingProcessId { program: Program::Gvproxy }) }
    );
}

#[test]
fn a_start_without_a_socket_terminates_gvproxy() {
    let step = start(vec![done(), done(), StartEvent::Spawned(Ok(gvproxy())), failed()]);
    assert_eq!(
        step.task(&config()),
        VmTask::Terminate { group: gvproxy_group(), grace: secs(3) }
    );
    let other = Error::ReapProcess { program: Program::Gvproxy, source: 1 };
    assert_eq!(
        step.advance(StartEvent::Done(Err(other))),
        StartVm::Finished { result: Err(Error::BuilderTimeout { port: 22 }) }
    );
}

#[test]
fn a_start_without_a_runner_terminates_gvproxy() {
    let step = start(vec![
        done(),
        done(),
        StartEvent::Spawned(Ok(gvproxy())),
        done(),
        StartEvent::Spawned(Err(Error::MissingProcessId { program: Program::Runner })),
    ]);
    assert_eq!(
        step,
        StartVm::StopGvproxy {
            gvproxy: gvproxy(),
            error: Error::MissingProcessId { program: Program::Runner },
        }
    );
}

#[test]
fn a_start_without_a_builder_terminates_the_runner_then_gvproxy() {
    let step = start(vec![
        done(),
        done(),
        StartEvent::Spawned(Ok(gvproxy())),
        done(),
        StartEvent::Spawned(Ok(runner())),
        failed(),
    ]);
    assert_eq!(
        step.task(&config()),
        VmTask::Terminate { group: runner_group(), grace: secs(3) }
    );
    let step = step.advance(done());
    assert_eq!(
        step,
        StartVm::StopGvproxy { gvproxy: gvproxy(), error: Error::BuilderTimeout { port: 22 } }
    );
    assert_eq!(
        step.advance(done()),
        StartVm::Finished { result: Err(Error::BuilderTimeout { port: 22 }) }
    );
}

#[test]
fn taking_a_vm_down_goes_on_after_errors() {
    let vm = VmProcesses { gvproxy: gvproxy(), runner: runner() };
    let config = config();
    let step = terminate_vm::<u32, u8>(vm);
    assert_eq!(
        step.task(&config),
        VmTask::Terminate { group: runner_group(), grace: secs(3) }
    );
    let step = step.advance(Err(Error::ReapProcess { program: Program::Runner, source: 1 }));
    assert_eq!(
        step.task(&config),
        VmTask::Terminate { group: gvproxy_group(), grace: secs(3) }
    );
    let step = step.advance(Err(Error::ReapProcess { program: Program::Gvproxy, source: 2 }));
    assert_eq!(step.task(&config), VmTask::RemoveFile { path: b"/r/vfkit.sock".to_vec() });
    let step = step.advance(Err(Error::RemoveFile { path: vec![], source: 3 }));
    assert_eq!(step.task(&config), VmTask::Nothing);
    assert_eq!(
        step,
        StopProcesses::Finished {
            result: Err(Error::ReapProcess { program: Program::Runner, source: 1 })
        }
    );
}

#[test]
fn taking_a_vm_down_forgives_a_socket_that_stays() {
    let vm = || VmProcesses { gvproxy: gvproxy(), runner: runner() };
    let step = terminate_vm::<u32, u8>(vm())
        .advance(Ok(()))
        .advance(Ok(()))
        .advance(Err(Error::RemoveFile { path: vec![], source: 3 }));
    assert_eq!(step, StopProcesses::Finished { result: Ok(()) });
    let step = terminate_vm::<u32, u8>(vm())
        .advance(Ok(()))
        .advance(Err(Error::ReapProcess { program: Program::Gvproxy, source: 2 }))
        .advance(Ok(()));
    assert_eq!(
        step,
        StopProcesses::Finished {
            result: Err(Error::ReapProcess { program: Program::Gvproxy, source: 2 })
        }
    );
}

#[test]
fn a_spawned_process_leads_its_group() {
    assert_eq!(
        spawn_process_group::<&str, u8>(Program::Runner, b"/n".to_vec(), Ok(("c", Some(4321)))),
        Ok(ManagedChild { program: Program::Runner, child: "c", process_group: 4321 })
    );
    let group = |pid: u32| {
        spawn_process_group::<(), u8>(Program::Runner, vec![], Ok(((), Some(pid))))
            .unwrap()
            .process_group
    };
    assert_eq!(group(0x7fff_ffff), i32::MAX);
    assert_eq!(group(0x8000_0000), i32::MIN);
    assert_eq!(group(u32::MAX), -1);
}

#[test]
fn a_process_that_cannot_be_spawned_is_an_error() {
    assert_eq!(
        spawn_process_group::<(), u8>(Program::Runner, b"/n".to_vec(), Err(2)),
        Err(Error::SpawnProcess { program: Program::Runner, path: b"/n".to_vec(), source: 2 })
    );
    assert_eq!(
        spawn_process_group::<(), u8>(Program::Gvproxy, b"/g".to_vec(), Ok(((), None))),
        Err(Error::MissingProcessId { program: Program::Gvproxy })
    );
}

#[test]
fn a_poll_names_its_program() {
    let status = ExitStatus { raw: 3 };
    assert_eq!(try_wait::<u8>(Program::Runner, Ok(Some(status))), Ok(Some(status)));
    assert_eq!(is_running::<u8>(Program::Runner, Ok(Some(status))), Ok(false));
    assert_eq!(is_running::<u8>(Program::Runner, Ok(None)), Ok(true));
    assert_eq!(
        is_running::<u8>(Program::Runner, Err(1)),
        Err(Error::InspectProcess { program: Program::Runner, source: 1 })
    );
}

#[test]
fn a_vm_runs_if_both_processes_do() {
    let status = ExitStatus { raw: 3 };
    assert_eq!(
        inspect_vm::<u8>().advance(Ok(Some(status))),
        VmInspection::Finished { result: Ok(false) }
    );
    assert_eq!(
        inspect_vm::<u8>().advance(Err(1)),
        VmInspection::Finished {
            result: Err(Error::InspectProcess { program: Program::Gvproxy, source: 1 })
        }
    );
    assert_eq!(inspect_vm::<u8>().advance(Ok(None)), VmInspection::PollRunner);
    assert_eq!(
        inspect_vm::<u8>().advance(Ok(None)).advance(Ok(None)),
        VmInspection::Finished { result: Ok(true) }
    );
    assert_eq!(
        inspect_vm::<u8>().advance(Ok(None)).advance(Ok(Some(status))),
        VmInspection::Finished { result: Ok(false) }
    );
}

#[test]
fn a_missing_file_counts_as_removed() {
    let missing = IoFailure { kind: IoErrorKind::NotFound, source: 1u8 };
    let denied = IoFailure { kind: IoErrorKind::Other, source: 2u8 };
    assert_eq!(remove_file_if_present::<u8>(b"/s".to_vec(), Ok(())), Ok(()));
    assert_eq!(remove_file_if_present(b"/s".to_vec(), Err(missing)), Ok(()));
    assert_eq!(
        remove_file_if_present(b"/s".to_vec(), Err(denied)),
        Err(Error::RemoveFile { path: b"/s".to_vec(), source: 2 })
    );
}

#[test]
fn failures_name_their_operation() {
    assert_eq!(create_runtime_directory::<u8>(b"/r".to_vec(), Ok(())), Ok(()));
    assert_eq!(
        create_runtime_directory(b"/r".to_vec(), Err(1u8)),
        Err(Error::CreateRuntimeDirectory { path: b"/r".to_vec(), source: 1 })
    );
    assert_eq!(bind_daemon_socket::<u8>(b"/s".to_vec(), Ok(())), Ok(()));
    assert_eq!(
        bind_daemon_socket(b"/s".to_vec(), Err(1u8)),
        Err(Error::BindDaemonSocket { path: b"/s".to_vec(), source: 1 })
    );
    assert_eq!(install_signal_handler::<u8>(StopSignal::Terminate, Ok(())), Ok(()));
    assert_eq!(
        install_signal_handler(StopSignal::Interrupt, Err(1u8)),
        Err(Error::InstallSignalHandler { stop: StopSignal::Interrupt, source: 1 })
    );
}
