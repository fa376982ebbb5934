use microvm_builder::error::{Error, ExitStatus, Program, Signal};
use microvm_builder::process::{send_process_group_signal, ManagedChild, ProcessGroup, ESRCH};
use microvm_builder::terminate::{
    terminate_process_group, Termination, TerminationEvent, TERMINATION_POLL_MILLIS,
};
use microvm_builder::time::Duration;

type Event = TerminationEvent<u8>;

fn at(secs: u64, nanos: u32) -> Duration {
    Duration { secs, nanos }
}

fn group() -> ProcessGroup {
    ProcessGroup { program: Program::Runner, id: 4321 }
}

fn gvproxy_group() -> ProcessGroup {
    ProcessGroup { program: Program::Gvproxy, id: 17 }
}

fn exited(raw: i32) -> Event {
    TerminationEvent::Polled(Ok(Some(ExitStatus { raw })))
}

fn running() -> Event {
    TerminationEvent::Polled(Ok(None))
}

fn run(grace: Duration, events: Vec<Event>) -> Termination<u8> {
    let mut step = terminate_process_group(group(), grace);
    for event in events {
        step = step.advance(event);
    }
    step
}

#[test]
fn a_process_that_has_exited_is_not_signalled() {
    assert_eq!(
        run(at(10, 0), vec![exited(256)]),
        Termination::Finished { result: Ok(()) }
    );
}

#[test]
fn a_process_that_cannot_be_polled_ends_the_termination() {
    assert_eq!(
        run(at(10, 0), vec![TerminationEvent::Polled(Err(7))]),
        Termination::Finished {
            result: Err(Error::InspectProcess { program: Program::Runner, source: 7 })
        }
    );
    let late = vec![
        running(),
        TerminationEvent::Signalled(Ok(())),
        TerminationEvent::Clock(at(5, 0)),
        TerminationEvent::Polled(Err(8)),
    ];
    assert_eq!(
        run(at(10, 0), late),
        Termination::Finished {
            result: Err(Error::InspectProcess { program: Program::Runner, source: 8 })
        }
    );
}

#[test]
fn the_grace_period_begins_after_sigterm() {
    assert_eq!(
        run(at(10, 0), vec![running()]),
        Termination::SendTerm { group: group(), grace: at(10, 0) }
    );
    assert_eq!(
        run(
            at(10, 0),
            vec![
                running(),
                TerminationEvent::Signalled(Ok(())),
                TerminationEvent::Clock(at(5, 3)),
            ]
        ),
        Termination::Poll { group: group(), deadline: 15_000_000_003 }
    );
}

#[test]
fn a_process_that_exits_in_time_is_not_killed() {
    let step = run(
        at(10, 0),
        vec![
            running(),
            TerminationEvent::Signalled(Ok(())),
            TerminationEvent::Clock(at(5, 0)),
            running(),
            TerminationEvent::Clock(at(14, 999_999_999)),
        ],
    );
    assert_eq!(
        step,
        Termination::Sleep { group: group(), deadline: 15_000_000_000, millis: 100 }
    );
    assert_eq!(TERMINATION_POLL_MILLIS, 100);
    let step = step.advance(TerminationEvent::Slept).advance(exited(15));
    assert_eq!(step, Termination::Finished { result: Ok(()) });
}

#[test]
fn sigkill_comes_once_the_grace_period_has_passed() {
    let step = run(
        at(10, 0),
        vec![
            running(),
            TerminationEvent::Signalled(Ok(())),
            TerminationEvent::Clock(at(5, 0)),
            running(),
            TerminationEvent::Clock(at(15, 0)),
        ],
    );
    assert_eq!(step, Termination::SendKill { group: group() });
    let step = step.advance(TerminationEvent::Signalled(Ok(())));
    assert_eq!(step, Termination::Reap { group: group() });
    assert_eq!(
        step.advance(TerminationEvent::Reaped(Ok(()))),
        Termination::Finished { result: Ok(()) }
    );
}

#[test]
fn no_grace_still_polls_once_after_sigterm() {
    let step = run(
        at(0, 0),
        vec![
            running(),
            TerminationEvent::Signalled(Ok(())),
            TerminationEvent::Clock(at(5, 0)),
        ],
    );
    assert_eq!(step, Termination::Poll { group: group(), deadline: 5_000_000_000 });
    let step = step.advance(running()).advance(TerminationEvent::Clock(at(5, 0)));
    assert_eq!(step, Termination::SendKill { group: group() });
}

#[test]
fn a_process_that_cannot_be_reaped_is_an_error() {
    let step: Termination<u8> = Termination::Reap { group: gvproxy_group() };
    assert_eq!(
        step.advance(TerminationEvent::Reaped(Err(3))),
        Termination::Finished {
            result: Err(Error::ReapProcess { program: Program::Gvproxy, source: 3 })
        }
    );
}

#[test]
fn a_group_without_processes_counts_as_signalled() {
    let missing = nix::errno::Errno::ESRCH as i32;
    assert_eq!(missing, ESRCH);
    assert_eq!(
        run(at(1, 0), vec![running(), TerminationEvent::Signalled(Err(missing))]),
        Termination::StartGrace { group: group(), grace: at(1, 0) }
    );
    let kill: Termination<u8> = Termination::SendKill { group: group() };
    assert_eq!(
        kill.advance(TerminationEvent::Signalled(Err(missing))),
        Termination::Reap { group: group() }
    );
}

#[test]
fn any_other_signal_failure_is_an_error() {
    let denied = nix::errno::Errno::EPERM as i32;
    assert_eq!(
        run(at(1, 0), vec![running(), TerminationEvent::Signalled(Err(denied))]),
        Termination::Finished {
            result: Err(Error::SignalProcessGroup {
                program: Program::Runner,
                signal: Signal::Term,
                errno: 1,
            })
        }
    );
    let kill: Termination<u8> = Termination::SendKill { group: gvproxy_group() };
    assert_eq!(
        kill.advance(TerminationEvent::Signalled(Err(22))),
        Termination::Finished {
            result: Err(Error::SignalProcessGroup {
                program: Program::Gvproxy,
                signal: Signal::Kill,
                errno: 22,
            })
        }
    );
}

#[test]
fn both_signals_go_to_the_group_that_the_process_leads() {
    let child = ManagedChild { program: Program::Runner, child: (), process_group: -7 };
    assert_eq!(child.group(), ProcessGroup { program: Program::Runner, id: -7 });
    let step: Termination<u8> = terminate_process_group(child.group(), at(0, 0));
    let step = step.advance(running());
    match &step {
        Termination::SendTerm { group, .. } => assert_eq!(group.id, -7),
        other => panic!("{:?}", other),
    }
    let step = step
        .advance(TerminationEvent::Signalled(Ok(())))
        .advance(TerminationEvent::Clock(at(5, 0)))
        .advance(running())
        .advance(TerminationEvent::Clock(at(5, 0)));
    match step {
        Termination::SendKill { group } => assert_eq!(group.id, -7),
        other => panic!("{:?}", other),
    }
}

#[test]
fn only_one_error_code_counts_as_signalled() {
    for code in -200..5000 {
        let result = send_process_group_signal::<u8>(Program::Runner, Signal::Term, Err(code));
        assert_eq!(result.is_ok(), code == 3, "code {}", code);
    }
    assert_eq!(
        send_process_group_signal::<u8>(Program::Runner, Signal::Term, Ok(())),
        Ok(())
    );
}

#[test]
fn answers_to_other_steps_change_nothing() {
    let start = run(at(1, 0), vec![]);
    let step = start
        .advance(TerminationEvent::Slept)
        .advance(TerminationEvent::Clock(at(9, 0)))
        .advance(TerminationEvent::Reaped(Ok(())))
        .advance(TerminationEvent::Signalled(Ok(())));
    assert_eq!(step, run(at(1, 0), vec![]));
    let done = run(at(1, 0), vec![exited(0), running(), TerminationEvent::Polled(Err(1))]);
    assert_eq!(done, Termination::Finished { result: Ok(()) });
}
