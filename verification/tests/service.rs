use microvm_builder::connection::{
    handle_proxy_connection, run_connect, ClientConnection, ClientEvent, ProxyConnection,
    ProxyEvent,
};
use microvm_builder::config::{load_config, Config, ConfigLoad, DaemonArgs};
use microvm_builder::daemon::{run_daemon, Daemon, DaemonEvent, DaemonTask};
use microvm_builder::error::{Error, Program, StopSignal};
use microvm_builder::lifecycle::{
    ensure_vm_running, stop_if_idle, stop_vm, EnsureEvent, EnsureVm, StopEvent, StopIfIdle, StopVm,
};
use microvm_builder::state::{IdleShutdown, IdleTake, State, VmCheck};
use microvm_builder::time::Duration;

const IDLE: Duration = Duration { secs: 120, nanos: 0 };

fn state(
    vm: Option<&'static str>,
    active_connections: usize,
    idle_generation: u64,
) -> State<&'static str> {
    State { vm, active_connections, idle_generation }
}

fn config() -> Config {
    let args = DaemonArgs {
        runtime_dir: b"/r".to_vec(),
        gvproxy: b"/g".to_vec(),
        vfkit: b"/v".to_vec(),
        runner: b"/n".to_vec(),
        ssh_port: 2222,
        idle_timeout: 120,
        start_timeout: 2,
        stop_timeout: 3,
    };
    match load_config::<u8>(args).advance(Ok(true)).advance(Ok(true)).advance(Ok(true)) {
        ConfigLoad::Finished { result: Ok(config) } => config,
        step => panic!("{:?}", step),
    }
}

fn inspect_error() -> Error<u8> {
    Error::InspectProcess { program: Program::Runner, source: 1 }
}

#[test]
fn a_new_daemon_has_no_vm_and_no_connections() {
    assert_eq!(State::new(), state(None, 0, 0));
}

#[test]
fn the_last_connection_to_close_schedules_a_shutdown() {
    let mut s = state(Some("vm"), 0, 0);
    s.connection_opened();
    s.connection_opened();
    assert_eq!(s, state(Some("vm"), 2, 2));
    assert_eq!(s.connection_closed(&config()), None);
    assert_eq!(s, state(Some("vm"), 1, 2));
    assert_eq!(
        s.connection_closed(&config()),
        Some(IdleShutdown { generation: 3, delay: IDLE })
    );
    assert_eq!(s, state(Some("vm"), 0, 3));
}

#[test]
fn a_close_too_many_leaves_the_count_at_zero() {
    let mut s = state(None, 0, 5);
    assert_eq!(
        s.connection_closed(&config()),
        Some(IdleShutdown { generation: 6, delay: IDLE })
    );
    assert_eq!(s, state(None, 0, 6));
}

#[test]
fn the_generation_wraps_around() {
    let mut s = state(None, 0, u64::MAX);
    s.connection_opened();
    assert_eq!(s.idle_generation, 0);
    let mut s = state(None, 1, u64::MAX);
    assert_eq!(
        s.connection_closed(&config()),
        Some(IdleShutdown { generation: 0, delay: IDLE })
    );
    let mut s = state(Some("vm"), 0, u64::MAX);
    assert_eq!(s.take_to_stop(), Some("vm"));
    assert_eq!(s, state(None, 0, 0));
}

#[test]
fn an_undisturbed_shutdown_takes_the_vm() {
    let mut s = state(Some("vm"), 1, 7);
    let scheduled = s.connection_closed(&config()).unwrap();
    assert!(s.is_idle_since(scheduled.generation));
    assert_eq!(s.take_if_idle(scheduled.generation), IdleTake::Taken(Some("vm")));
    assert_eq!(s, state(None, 0, 8));
    assert_eq!(s.take_if_idle(8), IdleTake::Taken(None));
}

#[test]
fn a_new_connection_cancels_a_scheduled_shutdown() {
    let mut s = state(Some("vm"), 1, 7);
    let first = s.connection_closed(&config()).unwrap();
    s.connection_opened();
    assert!(!s.is_idle_since(first.generation));
    assert_eq!(s.take_if_idle(first.generation), IdleTake::Cancelled);
    let second = s.connection_closed(&config()).unwrap();
    assert_eq!(s.take_if_idle(first.generation), IdleTake::Cancelled);
    assert_eq!(s, state(Some("vm"), 0, 10));
    assert_eq!(s.take_if_idle(second.generation), IdleTake::Taken(Some("vm")));
}

#[test]
fn stopping_cancels_a_scheduled_shutdown() {
    let mut s = state(Some("vm"), 1, 7);
    let scheduled = s.connection_closed(&config()).unwrap();
    assert_eq!(s.take_to_stop(), Some("vm"));
    s.install("other");
    assert_eq!(s.take_if_idle(scheduled.generation), IdleTake::Cancelled);
    assert_eq!(s.vm, Some("other"));
}

#[test]
fn an_open_connection_keeps_the_vm() {
    let mut s = state(Some("vm"), 1, 7);
    assert_eq!(s.take_if_idle(7), IdleTake::Cancelled);
    assert_eq!(s, state(Some("vm"), 1, 7));
}

#[test]
fn only_a_vm_that_has_stopped_running_is_stale() {
    let mut s = state(Some("vm"), 1, 7);
    assert_eq!(s.take_stale::<u8>(Ok(true)), VmCheck::Running);
    assert_eq!(s.take_stale(Err(inspect_error())), VmCheck::Failed(inspect_error()));
    assert_eq!(s, state(Some("vm"), 1, 7));
    assert_eq!(s.take_stale::<u8>(Ok(false)), VmCheck::Stale("vm"));
    assert_eq!(s, state(None, 1, 7));
    assert_eq!(s.take_stale::<u8>(Ok(false)), VmCheck::Absent);
    assert_eq!(s.take_stale::<u8>(Ok(true)), VmCheck::Absent);
}

#[test]
fn ensuring_a_vm_locks_then_examines() {
    assert_eq!(ensure_vm_running::<&str, u8>(), EnsureVm::LockLifecycle);
    assert_eq!(
        EnsureVm::<&str, u8>::after(EnsureEvent::LifecycleLocked),
        EnsureVm::Examine
    );
}

#[test]
fn a_running_vm_is_left_alone() {
    assert_eq!(
        EnsureVm::<&str, u8>::after(EnsureEvent::Examined(VmCheck::Running)),
        EnsureVm::Finished { result: Ok(()) }
    );
    assert_eq!(
        EnsureVm::<&str, u8>::after(EnsureEvent::Examined(VmCheck::Failed(inspect_error()))),
        EnsureVm::Finished { result: Err(inspect_error()) }
    );
}

#[test]
fn a_vm_is_started_where_none_runs() {
    type Step = EnsureVm<&'static str, u8>;
    assert_eq!(Step::after(EnsureEvent::Examined(VmCheck::Absent)), EnsureVm::Start);
    assert_eq!(
        Step::after(EnsureEvent::Examined(VmCheck::Stale("old"))),
        EnsureVm::StopStale { vm: "old" }
    );
    assert_eq!(Step::after(EnsureEvent::StaleStopped(Ok(()))), EnsureVm::Start);
    assert_eq!(
        Step::after(EnsureEvent::StaleStopped(Err(inspect_error()))),
        EnsureVm::Start
    );
    assert_eq!(
        Step::after(EnsureEvent::Started(Ok("new"))),
        EnsureVm::Install { vm: "new" }
    );
    assert_eq!(
        Step::after(EnsureEvent::Started(Err(inspect_error()))),
        EnsureVm::Finished { result: Err(inspect_error()) }
    );
    assert_eq!(
        Step::after(EnsureEvent::Installed),
        EnsureVm::Finished { result: Ok(()) }
    );
}

#[test]
fn stopping_terminates_the_vm_that_it_takes() {
    type Step = StopVm<&'static str, u8>;
    assert_eq!(stop_vm::<&str, u8>(), StopVm::LockLifecycle);
    assert_eq!(Step::after(StopEvent::LifecycleLocked), StopVm::Take);
    assert_eq!(Step::after(StopEvent::Taken(None)), StopVm::Finished { result: Ok(()) });
    assert_eq!(
        Step::after(StopEvent::Taken(Some("vm"))),
        StopVm::Terminate { vm: "vm" }
    );
    assert_eq!(
        Step::after(StopEvent::Terminated(Err(inspect_error()))),
        StopVm::Finished { result: Err(inspect_error()) }
    );
}

#[test]
fn an_idle_shutdown_looks_twice() {
    type Step = StopIfIdle<&'static str, u8>;
    let finished = || Step::Finished { result: Ok(()) };
    let check = || -> Step { stop_if_idle(5) };
    assert_eq!(check(), StopIfIdle::Check { generation: 5 });
    assert_eq!(check().check(&state(Some("vm"), 0, 4)), finished());
    assert_eq!(check().check(&state(Some("vm"), 1, 5)), finished());

    let lock = || check().check(&state(Some("vm"), 0, 5));
    assert_eq!(lock(), StopIfIdle::LockLifecycle { generation: 5 });
    let take = || lock().locked();
    assert_eq!(take(), StopIfIdle::Take { generation: 5 });

    let mut used = state(Some("vm"), 1, 5);
    assert_eq!(take().take(&mut used), finished());
    assert_eq!(used, state(Some("vm"), 1, 5));
    let mut later = state(Some("vm"), 0, 6);
    assert_eq!(take().take(&mut later), finished());
    assert_eq!(later, state(Some("vm"), 0, 6));
    assert_eq!(take().take(&mut state(None, 0, 5)), finished());
    let mut idle = state(Some("vm"), 0, 5);
    assert_eq!(take().take(&mut idle), StopIfIdle::Terminate { vm: "vm" });
    assert_eq!(idle, state(None, 0, 5));

    assert_eq!(
        Step::terminated(Err(inspect_error())),
        StopIfIdle::Finished { result: Err(inspect_error()) }
    );
}

#[test]
fn an_idle_shutdown_takes_nothing_out_of_turn() {
    type Step = StopIfIdle<&'static str, u8>;
    let mut s = state(Some("vm"), 0, 5);
    let step: Step = stop_if_idle(5);
    let step = step.locked().take(&mut s);
    assert_eq!(step, StopIfIdle::Check { generation: 5 });
    assert_eq!(s, state(Some("vm"), 0, 5));
    let step = Step::LockLifecycle { generation: 5 };
    assert_eq!(step.check(&state(None, 1, 6)), StopIfIdle::LockLifecycle { generation: 5 });
}

#[test]
fn a_connection_is_closed_however_it_goes() {
    let open = || handle_proxy_connection::<u8>(&config()).advance(ProxyEvent::Opened);
    assert_eq!(open(), ProxyConnection::EnsureVm { port: 2222 });

    let failed = open().advance(ProxyEvent::Ensured(Err(inspect_error())));
    assert_eq!(failed, ProxyConnection::Close { result: Err(inspect_error()) });
    assert_eq!(
        failed.advance(ProxyEvent::Closed),
        ProxyConnection::Finished { result: Err(inspect_error()) }
    );

    let ensured = || open().advance(ProxyEvent::Ensured(Ok(())));
    assert_eq!(ensured(), ProxyConnection::Connect { host: "127.0.0.1", port: 2222 });
    assert_eq!(
        ensured().advance(ProxyEvent::Connected(Err(3))),
        ProxyConnection::Close { result: Err(Error::ConnectBuilder { port: 2222, source: 3 }) }
    );

    let connected = || ensured().advance(ProxyEvent::Connected(Ok(())));
    assert_eq!(connected(), ProxyConnection::Proxy);
    assert_eq!(
        connected().advance(ProxyEvent::Proxied(Err(4))),
        ProxyConnection::Close { result: Err(Error::ProxyTransport { source: 4 }) }
    );
    assert_eq!(
        connected().advance(ProxyEvent::Proxied(Ok(()))).advance(ProxyEvent::Closed),
        ProxyConnection::Finished { result: Ok(()) }
    );
}

/// Takes one step of serving a connection, in which `failing` says whether the
/// builder can be reached.
fn serve_on(
    step: ProxyConnection<u8>,
    s: &mut State<&'static str>,
    failing: bool,
) -> ProxyConnection<u8> {
    let event = match &step {
        ProxyConnection::Open { .. } => {
            s.connection_opened();
            ProxyEvent::Opened
        }
        ProxyConnection::EnsureVm { .. } => ProxyEvent::Ensured(Ok(())),
        ProxyConnection::Connect { .. } if failing => ProxyEvent::Connected(Err(61)),
        ProxyConnection::Connect { .. } => ProxyEvent::Connected(Ok(())),
        ProxyConnection::Proxy => ProxyEvent::Proxied(Ok(())),
        ProxyConnection::Close { .. } => {
            s.connection_closed(&config());
            ProxyEvent::Closed
        }
        ProxyConnection::Finished { .. } => ProxyEvent::Closed,
    };
    step.advance(event)
}

#[test]
fn the_active_connections_are_those_being_served() {
    let mut s = State::new();
    let mut steps: Vec<Option<ProxyConnection<u8>>> =
        (0..3).map(|_| Some(handle_proxy_connection(&config()))).collect();
    let order = [0, 1, 1, 0, 2, 1, 0, 0, 1, 2, 0, 1, 2, 0, 2, 2, 2, 1];
    for at in order {
        let step = steps[at].take().unwrap();
        steps[at] = Some(serve_on(step, &mut s, at == 1));
        s.take_to_stop();
        s.install("vm");
        let served = steps
            .iter()
            .filter(|step| {
                !matches!(
                    step,
                    Some(ProxyConnection::Open { .. } | ProxyConnection::Finished { .. })
                )
            })
            .count();
        assert_eq!(s.active_connections, served);
    }
    for step in steps {
        assert!(matches!(step, Some(ProxyConnection::Finished { .. })));
    }
    assert_eq!(s.active_connections, 0);
}

#[test]
fn the_configuration_gives_the_port_and_the_idle_time() {
    let config = Config {
        ssh_port: 31022,
        idle_timeout: Duration { secs: 7, nanos: 5 },
        ..config()
    };
    assert_eq!(
        handle_proxy_connection::<u8>(&config),
        ProxyConnection::Open { port: 31022 }
    );
    assert_eq!(
        state(Some("vm"), 1, 4).connection_closed(&config),
        Some(IdleShutdown { generation: 5, delay: Duration { secs: 7, nanos: 5 } })
    );
}

#[test]
fn a_client_copies_once_it_is_connected() {
    let start = || run_connect::<u8>(b"/r/daemon.sock".to_vec());
    assert_eq!(
        start().advance(ClientEvent::Connected(Err(2))),
        ClientConnection::Finished {
            result: Err(Error::ConnectDaemon { path: b"/r/daemon.sock".to_vec(), source: 2 })
        }
    );
    let connected = || start().advance(ClientEvent::Connected(Ok(())));
    assert_eq!(connected(), ClientConnection::Proxy);
    assert_eq!(
        connected().advance(ClientEvent::Proxied(Err(5))),
        ClientConnection::Finished { result: Err(Error::ProxyTransport { source: 5 }) }
    );
    assert_eq!(
        connected().advance(ClientEvent::Proxied(Ok(()))),
        ClientConnection::Finished { result: Ok(()) }
    );
}

#[test]
fn the_daemon_goes_through_its_tasks() {
    let config = config();
    let done = || DaemonEvent::<u8>::Done(Ok(()));
    let step = run_daemon::<u8>();
    assert_eq!(step.task(&config), DaemonTask::CreateDirectory { path: b"/r".to_vec() });
    let step = step.advance(done());
    assert_eq!(step.task(&config), DaemonTask::RemoveFile { path: b"/r/daemon.sock".to_vec() });
    let step = step.advance(done());
    assert_eq!(step.task(&config), DaemonTask::Bind { path: b"/r/daemon.sock".to_vec() });
    let step = step.advance(done());
    assert_eq!(
        step.task(&config),
        DaemonTask::InstallHandler { stop: StopSignal::Terminate }
    );
    let step = step.advance(done());
    assert_eq!(
        step.task(&config),
        DaemonTask::InstallHandler { stop: StopSignal::Interrupt }
    );
    let mut step = step.advance(done());
    for _ in 0..3 {
        assert_eq!(step.task(&config), DaemonTask::Serve);
        step = step.advance(DaemonEvent::Accepted(Ok(())));
        assert_eq!(step.task(&config), DaemonTask::Dispatch);
        step = step.advance(DaemonEvent::Dispatched);
    }
    let step = step.advance(DaemonEvent::Signalled(StopSignal::Interrupt));
    assert_eq!(step.task(&config), DaemonTask::StopVm);
    let step = step.advance(DaemonEvent::Done(Err(inspect_error())));
    assert_eq!(step.task(&config), DaemonTask::RemoveFile { path: b"/r/daemon.sock".to_vec() });
    let step = step.advance(DaemonEvent::Done(Err(inspect_error())));
    assert_eq!(step, Daemon::Finished { result: Ok(()) });
    assert_eq!(step.task(&config), DaemonTask::Nothing);
}

#[test]
fn a_daemon_that_cannot_be_prepared_does_not_serve() {
    let done = || DaemonEvent::<u8>::Done(Ok(()));
    for good in 0..5 {
        let mut step = run_daemon::<u8>();
        for _ in 0..good {
            step = step.advance(done());
        }
        assert_eq!(
            step.advance(DaemonEvent::Done(Err(inspect_error()))),
            Daemon::Finished { result: Err(inspect_error()) }
        );
    }
}

#[test]
fn a_daemon_that_cannot_accept_ends() {
    assert_eq!(
        Daemon::<u8>::Serve.advance(DaemonEvent::Accepted(Err(24))),
        Daemon::Finished { result: Err(Error::AcceptConnection { source: 24 }) }
    );
}

#[test]
fn connections_come_and_go_while_a_vm_is_replaced() {
    type Step = EnsureVm<&'static str, u8>;
    let mut s = state(Some("old"), 1, 1);
    assert_eq!(Step::after(EnsureEvent::LifecycleLocked), EnsureVm::Examine);
    let found = s.take_stale(Ok(false));
    let step = Step::after(EnsureEvent::Examined(found));
    assert_eq!(step, EnsureVm::StopStale { vm: "old" });
    s.connection_opened();
    assert_eq!(s.vm, None);
    assert_eq!(Step::after(EnsureEvent::StaleStopped(Ok(()))), EnsureVm::Start);
    assert_eq!(s.connection_closed(&config()), None);
    assert_eq!(s.vm, None);
    match Step::after(EnsureEvent::Started(Ok("new"))) {
        EnsureVm::Install { vm } => s.install(vm),
        step => panic!("{:?}", step),
    }
    assert_eq!(s, state(Some("new"), 1, 2));
}

#[test]
fn a_shutdown_that_waited_for_the_lock_looks_again() {
    let mut s = state(Some("vm"), 1, 1);
    let scheduled = s.connection_closed(&config()).unwrap();
    let step: StopIfIdle<&str, u8> = stop_if_idle(scheduled.generation);
    let step = step.check(&s);
    assert_eq!(step, StopIfIdle::LockLifecycle { generation: 2 });
    s.connection_opened();
    assert_eq!(step.locked().take(&mut s), StopIfIdle::Finished { result: Ok(()) });
    assert_eq!(s, state(Some("vm"), 1, 3));
}

#[test]
fn callers_at_once_share_one_start() {
    type Step = EnsureVm<&'static str, u8>;
    let mut s = state(None, 2, 2);
    let mut starts = 0;
    for _ in 0..2 {
        let mut step: Step = ensure_vm_running();
        loop {
            step = match step {
                EnsureVm::LockLifecycle => Step::after(EnsureEvent::LifecycleLocked),
                EnsureVm::Examine => Step::after(EnsureEvent::Examined(s.take_stale(Ok(true)))),
                EnsureVm::Start => {
                    starts += 1;
                    Step::after(EnsureEvent::Started(Ok("vm")))
                }
                EnsureVm::Install { vm } => {
                    s.install(vm);
                    Step::after(EnsureEvent::Installed)
                }
                step => {
                    assert_eq!(step, EnsureVm::Finished { result: Ok(()) });
                    break;
                }
            };
        }
    }
    assert_eq!(starts, 1);
    assert_eq!(s, state(Some("vm"), 2, 2));
}
