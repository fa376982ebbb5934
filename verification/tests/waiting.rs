use microvm_builder::builder::{
    is_ssh_banner, try_read_ssh_banner, wait_for_builder, BannerEvent, BannerProbe, BuilderEvent,
    BuilderGoal, BuilderWait, Timed,
};
use microvm_builder::error::{Error, ExitStatus, Program};
use microvm_builder::time::Duration;
use microvm_builder::wait::{wait_for_path, PathEvent, PathGoal, PathWait};

fn at(secs: u64) -> Duration {
    Duration { secs, nanos: 0 }
}

fn socket() -> Vec<u8> {
    b"/run/vfkit.sock".to_vec()
}

fn path_wait(events: Vec<PathEvent<u8>>) -> PathWait<u8> {
    let mut step = wait_for_path(socket(), Program::Gvproxy, 120_000_000_000);
    for event in events {
        step = step.advance(event);
    }
    step
}

fn builder_wait(events: Vec<BuilderEvent<u8>>) -> BuilderWait<u8> {
    let mut step = wait_for_builder(2222, 120_000_000_000);
    for event in events {
        step = step.advance(event);
    }
    step
}

fn probe(events: Vec<BannerEvent<u8>>) -> BannerProbe<u8> {
    let mut step = try_read_ssh_banner(2222);
    for event in events {
        step = step.advance(event);
    }
    step
}

#[test]
fn a_path_wait_begins_by_looking() {
    assert_eq!(
        path_wait(vec![]),
        PathWait::CheckPath {
            goal: PathGoal {
                program: Program::Gvproxy,
                path: socket(),
                deadline: 120_000_000_000,
            }
        }
    );
}

#[test]
fn an_existing_path_ends_the_wait() {
    assert_eq!(
        path_wait(vec![PathEvent::PathChecked(true)]),
        PathWait::Finished { result: Ok(()) }
    );
}

#[test]
fn a_path_wait_pauses_between_rounds() {
    let step = path_wait(vec![
        PathEvent::PathChecked(false),
        PathEvent::Polled(Ok(None)),
        PathEvent::Clock(at(119)),
    ]);
    assert!(matches!(step, PathWait::Sleep { millis: 100, .. }));
    assert_eq!(step.advance(PathEvent::Slept), path_wait(vec![]));
}

#[test]
fn a_process_that_exits_before_its_path_is_an_error() {
    assert_eq!(
        path_wait(vec![
            PathEvent::PathChecked(false),
            PathEvent::Polled(Ok(Some(ExitStatus { raw: 256 }))),
        ]),
        PathWait::Finished {
            result: Err(Error::ProcessExitedBeforePath {
                program: Program::Gvproxy,
                path: socket(),
                status: ExitStatus { raw: 256 },
            })
        }
    );
}

#[test]
fn a_path_that_does_not_come_in_time_is_an_error() {
    let timeout = path_wait(vec![
        PathEvent::PathChecked(false),
        PathEvent::Polled(Ok(None)),
        PathEvent::Clock(at(120)),
    ]);
    assert_eq!(
        timeout,
        PathWait::Finished {
            result: Err(Error::PathTimeout { program: Program::Gvproxy, path: socket() })
        }
    );
    let kept = timeout.advance(PathEvent::Slept).advance(PathEvent::PathChecked(true));
    assert!(matches!(
        kept,
        PathWait::Finished { result: Err(Error::PathTimeout { .. }) }
    ));
}

#[test]
fn a_failed_poll_ends_a_path_wait() {
    assert_eq!(
        path_wait(vec![PathEvent::PathChecked(false), PathEvent::Polled(Err(4))]),
        PathWait::Finished {
            result: Err(Error::InspectProcess { program: Program::Gvproxy, source: 4 })
        }
    );
}

#[test]
fn a_path_outweighs_an_exited_process() {
    let step = path_wait(vec![
        PathEvent::PathChecked(false),
        PathEvent::Polled(Ok(None)),
        PathEvent::Clock(at(101)),
        PathEvent::Slept,
        PathEvent::PathChecked(true),
        PathEvent::Polled(Ok(Some(ExitStatus { raw: 1 }))),
    ]);
    assert_eq!(step, PathWait::Finished { result: Ok(()) });
}

#[test]
fn the_builder_is_ready_once_it_answers() {
    assert_eq!(
        builder_wait(vec![BuilderEvent::Probed(Ok(true))]),
        BuilderWait::Finished { result: Ok(()) }
    );
}

#[test]
fn a_failed_attempt_is_not_the_end() {
    let goal = BuilderGoal { port: 2222, deadline: 120_000_000_000 };
    assert_eq!(
        builder_wait(vec![BuilderEvent::Probed(Err(9))]),
        BuilderWait::PollGvproxy { goal }
    );
    assert_eq!(
        builder_wait(vec![BuilderEvent::Probed(Ok(false))]),
        BuilderWait::PollGvproxy { goal }
    );
    let step = builder_wait(vec![
        BuilderEvent::Probed(Err(9)),
        BuilderEvent::Polled(Ok(None)),
        BuilderEvent::Polled(Ok(None)),
        BuilderEvent::Clock(at(119)),
    ]);
    assert_eq!(step, BuilderWait::Sleep { goal, millis: 250 });
    assert_eq!(step.advance(BuilderEvent::Slept), BuilderWait::Probe { goal });
}

#[test]
fn either_process_exiting_before_the_builder_is_an_error() {
    let status = ExitStatus { raw: 9 };
    assert_eq!(
        builder_wait(vec![
            BuilderEvent::Probed(Ok(false)),
            BuilderEvent::Polled(Ok(Some(status))),
        ]),
        BuilderWait::Finished {
            result: Err(Error::ProcessExitedBeforeBuilder { program: Program::Gvproxy, status })
        }
    );
    assert_eq!(
        builder_wait(vec![
            BuilderEvent::Probed(Ok(false)),
            BuilderEvent::Polled(Ok(None)),
            BuilderEvent::Polled(Ok(Some(status))),
        ]),
        BuilderWait::Finished {
            result: Err(Error::ProcessExitedBeforeBuilder { program: Program::Runner, status })
        }
    );
    assert_eq!(
        builder_wait(vec![
            BuilderEvent::Probed(Ok(false)),
            BuilderEvent::Polled(Ok(None)),
            BuilderEvent::Polled(Err(2)),
        ]),
        BuilderWait::Finished {
            result: Err(Error::InspectProcess { program: Program::Runner, source: 2 })
        }
    );
}

#[test]
fn a_builder_that_does_not_answer_in_time_is_an_error() {
    assert_eq!(
        builder_wait(vec![
            BuilderEvent::Probed(Ok(false)),
            BuilderEvent::Polled(Ok(None)),
            BuilderEvent::Polled(Ok(None)),
            BuilderEvent::Clock(at(120)),
            BuilderEvent::Slept,
        ]),
        BuilderWait::Finished { result: Err(Error::BuilderTimeout { port: 2222 }) }
    );
}

#[test]
fn an_ssh_banner_begins_with_ssh() {
    assert!(is_ssh_banner(b"SSH-2.0-OpenSSH_9.6\r\n"));
    assert!(is_ssh_banner(b"SSH-"));
    assert!(!is_ssh_banner(b"SSH"));
    assert!(!is_ssh_banner(b""));
    assert!(!is_ssh_banner(b"ssh-2.0"));
    assert!(!is_ssh_banner(b" SSH-2.0"));
    assert!(!is_ssh_banner(b"SSH_2.0"));
    assert!(!is_ssh_banner(b"HTTP/1.1 400"));
}

#[test]
fn a_probe_reads_a_greeting() {
    assert_eq!(
        probe(vec![]),
        BannerProbe::Connect { host: "127.0.0.1", port: 2222, limit_secs: 1 }
    );
    let connected = BannerEvent::Connected(Timed::Completed(Ok(())));
    let step = probe(vec![connected]);
    assert_eq!(step, BannerProbe::Read { capacity: 255, limit_secs: 1 });
    assert_eq!(
        step.advance(BannerEvent::Received(Timed::Completed(Ok(b"SSH-2.0-x".to_vec())))),
        BannerProbe::Finished { result: Ok(true) }
    );
}

#[test]
fn a_probe_that_takes_too_long_finds_nothing() {
    assert_eq!(
        probe(vec![BannerEvent::Connected(Timed::Elapsed)]),
        BannerProbe::Finished { result: Ok(false) }
    );
    assert_eq!(
        probe(vec![
            BannerEvent::Connected(Timed::Completed(Ok(()))),
            BannerEvent::Received(Timed::Elapsed),
        ]),
        BannerProbe::Finished { result: Ok(false) }
    );
}

#[test]
fn a_probe_passes_on_what_went_wrong() {
    assert_eq!(
        probe(vec![BannerEvent::Connected(Timed::Completed(Err(5)))]),
        BannerProbe::Finished { result: Err(5) }
    );
    assert_eq!(
        probe(vec![
            BannerEvent::Connected(Timed::Completed(Ok(()))),
            BannerEvent::Received(Timed::Completed(Err(6))),
        ]),
        BannerProbe::Finished { result: Err(6) }
    );
    assert_eq!(
        probe(vec![
            BannerEvent::Connected(Timed::Completed(Ok(()))),
            BannerEvent::Received(Timed::Completed(Ok(vec![]))),
        ]),
        BannerProbe::Finished { result: Ok(false) }
    );
}
