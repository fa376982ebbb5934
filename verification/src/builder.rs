//! Finding out whether the builder's SSH server answers, and waiting until it does.

use crate::error::{Error, ExitStatus, Program};
use crate::process::{inspection, try_wait};
use crate::time::{has_reached, Duration};
use vstd::prelude::*;

verus! {

/// The address at which the builder's forwarded port is reached.
pub const BUILDER_HOST: &'static str = "127.0.0.1";

/// The longest that connecting may take, and reading after it, in seconds.
pub const PROBE_TIMEOUT_SECS: u64 = 1;

/// How many bytes of the server's greeting are read at most.
pub const BANNER_BUFFER_LEN: usize = 255;

/// The pause between two attempts to reach the builder.
pub const BUILDER_POLL_MILLIS: u64 = 250;

/// Whether `bytes` begin as the greeting of an SSH server does, with `SSH-`.
pub open spec fn greets_as_ssh(bytes: Seq<u8>) -> bool {
    bytes.len() >= 4 && bytes.take(4) == seq![0x53u8, 0x53u8, 0x48u8, 0x2du8]
}

pub fn is_ssh_banner(bytes: &[u8]) -> (ssh: bool)
    ensures
        ssh == greets_as_ssh(bytes@),
{
    if bytes.len() < 4 {
        return false;
    }
    let ssh = bytes[0] == 0x53u8 && bytes[1] == 0x53u8 && bytes[2] == 0x48u8 && bytes[3] == 0x2du8;
    proof {
        let greeting = seq![0x53u8, 0x53u8, 0x48u8, 0x2du8];
        assert(ssh ==> bytes@.take(4) =~= greeting);
        if bytes@.take(4) == greeting {
            assert(bytes@[0] == greeting[0] && bytes@[1] == greeting[1] && bytes@[2] == greeting[2]
                && bytes@[3] == greeting[3]) by {
                assert(forall|i: int| 0 <= i < 4 ==> bytes@[i] == #[trigger] bytes@.take(4)[i]);
            }
        }
    }
    ssh
}

/// How an operation with a time limit came out.
#[derive(Debug, PartialEq, Eq)]
pub enum Timed<T> {
    Elapsed,
    Completed(T),
}

/// One attempt to read the builder's greeting, by what is to be done next.
#[derive(Debug, PartialEq, Eq)]
pub enum BannerProbe<S> {
    /// Connect to this host and port, within so many seconds.
    Connect { host: &'static str, port: u16, limit_secs: u64 },
    /// Read once from the connection, at most so many bytes, within so many seconds.
    Read { capacity: usize, limit_secs: u64 },
    /// Nothing is left to do.
    Finished { result: Result<bool, S> },
}

/// The answer to a step of such an attempt.
#[derive(Debug, PartialEq, Eq)]
pub enum BannerEvent<S> {
    Connected(Timed<Result<(), S>>),
    Received(Timed<Result<Vec<u8>, S>>),
}

impl<S> BannerProbe<S> {
    /// The step after this one, given the answer to it. An answer to some
    /// other step changes nothing.
    pub open spec fn next(self, event: BannerEvent<S>) -> Self {
        match (self, event) {
            (BannerProbe::Connect { .. }, BannerEvent::Connected(outcome)) => match outcome {
                Timed::Elapsed => BannerProbe::Finished { result: Ok(false) },
                Timed::Completed(Err(source)) => BannerProbe::Finished { result: Err(source) },
                Timed::Completed(Ok(_)) => BannerProbe::Read {
                    capacity: BANNER_BUFFER_LEN,
                    limit_secs: PROBE_TIMEOUT_SECS,
                },
            },
            (BannerProbe::Read { .. }, BannerEvent::Received(outcome)) => match outcome {
                Timed::Elapsed => BannerProbe::Finished { result: Ok(false) },
                Timed::Completed(Err(source)) => BannerProbe::Finished { result: Err(source) },
                Timed::Completed(Ok(bytes)) => BannerProbe::Finished {
                    result: Ok(greets_as_ssh(bytes@)),
                },
            },
            _ => self,
        }
    }

    pub fn advance(self, event: BannerEvent<S>) -> (step: Self)
        ensures
            step == self.next(event),
    {
        match (self, event) {
            (BannerProbe::Connect { .. }, BannerEvent::Connected(outcome)) => match outcome {
                Timed::Elapsed => BannerProbe::Finished { result: Ok(false) },
                Timed::Completed(Err(source)) => BannerProbe::Finished { result: Err(source) },
                Timed::Completed(Ok(_)) => BannerProbe::Read {
                    capacity: BANNER_BUFFER_LEN,
                    limit_secs: PROBE_TIMEOUT_SECS,
                },
            },
            (BannerProbe::Read { .. }, BannerEvent::Received(outcome)) => match outcome {
                Timed::Elapsed => BannerProbe::Finished { result: Ok(false) },
                Timed::Completed(Err(source)) => BannerProbe::Finished { result: Err(source) },
                Timed::Completed(Ok(bytes)) => BannerProbe::Finished {
                    result: Ok(is_ssh_banner(bytes.as_slice())),
                },
            },
            (step, _) => step,
        }
    }
}

/// Begins one attempt to read the greeting of the SSH server behind `port`.
pub fn try_read_ssh_banner<S>(port: u16) -> (step: BannerProbe<S>)
    ensures
        step == (BannerProbe::<S>::Connect {
            host: BUILDER_HOST,
            port,
            limit_secs: PROBE_TIMEOUT_SECS,
        }),
{
    BannerProbe::Connect { host: BUILDER_HOST, port, limit_secs: PROBE_TIMEOUT_SECS }
}

/// An attempt finds the builder ready exactly if it connects in time and is
/// greeted, in time, as by an SSH server.
pub proof fn probe_succeeds_on_greeting_only<S>(
    port: u16,
    connected: Timed<Result<(), S>>,
    received: Timed<Result<Vec<u8>, S>>,
)
    ensures
        ({
            let start = BannerProbe::<S>::Connect {
                host: BUILDER_HOST,
                port,
                limit_secs: PROBE_TIMEOUT_SECS,
            };
            let end = start.next(BannerEvent::Connected(connected)).next(
                BannerEvent::Received(received),
            );
            &&& end is Finished
            &&& end->result == Ok::<bool, S>(true) <==> {
                &&& connected matches Timed::Completed(Ok(_))
                &&& received matches Timed::Completed(Ok(bytes))
                &&& greets_as_ssh(bytes@)
            }
        }),
{
}

/// The port that is forwarded to the builder, and the moment on the clock, in
/// nanoseconds, from which the wait for it is given up.
#[derive(Clone, Copy, Debug, PartialEq, Eq)]
pub struct BuilderGoal {
    pub port: u16,
    pub deadline: u128,
}

/// A wait for the builder, by what is to be done next.
#[derive(Debug, PartialEq, Eq)]
pub enum BuilderWait<S> {
    /// Attempt to read the builder's greeting.
    Probe { goal: BuilderGoal },
    /// Poll gvproxy.
    PollGvproxy { goal: BuilderGoal },
    /// Poll the runner.
    PollRunner { goal: BuilderGoal },
    /// Read the clock.
    CheckDeadline { goal: BuilderGoal },
    /// Sleep for so many milliseconds.
    Sleep { goal: BuilderGoal, millis: u64 },
    /// Nothing is left to do.
    Finished { result: Result<(), Error<S>> },
}

/// The answer to a step of a wait for the builder.
#[derive(Debug, PartialEq, Eq)]
pub enum BuilderEvent<S> {
    Probed(Result<bool, S>),
    Polled(Result<Option<ExitStatus>, S>),
    Clock(Duration),
    Slept,
}

impl<S> BuilderWait<S> {
    /// The step after this one, given the answer to it. An answer to some
    /// other step changes nothing.
    pub open spec fn next(self, event: BuilderEvent<S>) -> Self {
        match (self, event) {
            (BuilderWait::Probe { goal }, BuilderEvent::Probed(probed)) => {
                if probed == Ok::<bool, S>(true) {
                    BuilderWait::Finished { result: Ok(()) }
                } else {
                    BuilderWait::PollGvproxy { goal }
                }
            },
            (BuilderWait::PollGvproxy { goal }, BuilderEvent::Polled(polled)) => {
                match exit_before_builder(Program::Gvproxy, polled) {
                    Some(error) => BuilderWait::Finished { result: Err(error) },
                    None => BuilderWait::PollRunner { goal },
                }
            },
            (BuilderWait::PollRunner { goal }, BuilderEvent::Polled(polled)) => {
                match exit_before_builder(Program::Runner, polled) {
                    Some(error) => BuilderWait::Finished { result: Err(error) },
                    None => BuilderWait::CheckDeadline { goal },
                }
            },
            (BuilderWait::CheckDeadline { goal }, BuilderEvent::Clock(now)) => {
                if now.total() >= goal.deadline {
                    BuilderWait::Finished { result: Err(Error::BuilderTimeout { port: goal.port }) }
                } else {
                    BuilderWait::Sleep { goal, millis: BUILDER_POLL_MILLIS }
                }
            },
            (BuilderWait::Sleep { goal, .. }, BuilderEvent::Slept) => BuilderWait::Probe { goal },
            _ => self,
        }
    }

    /// The step that is reached once all of `events` have been taken, in order.
    pub open spec fn run(self, events: Seq<BuilderEvent<S>>) -> Self
        decreases events.len(),
    {
        if events.len() == 0 {
            self
        } else {
            self.run(events.drop_last()).next(events.last())
        }
    }

    /// Whether this is a step of a wait for `goal` that has not ended.
    pub open spec fn pursues(self, goal: BuilderGoal) -> bool {
        match self {
            BuilderWait::Probe { goal: g } => g == goal,
            BuilderWait::PollGvproxy { goal: g } => g == goal,
            BuilderWait::PollRunner { goal: g } => g == goal,
            BuilderWait::CheckDeadline { goal: g } => g == goal,
            BuilderWait::Sleep { goal: g, .. } => g == goal,
            BuilderWait::Finished { .. } => false,
        }
    }

    pub fn advance(self, event: BuilderEvent<S>) -> (step: Self)
        ensures
            step == self.next(event),
    {
        match (self, event) {
            (BuilderWait::Probe { goal }, BuilderEvent::Probed(probed)) => match probed {
                Ok(true) => BuilderWait::Finished { result: Ok(()) },
                Ok(false) => BuilderWait::PollGvproxy { goal },
                Err(_) => BuilderWait::PollGvproxy { goal },
            },
            (BuilderWait::PollGvproxy { goal }, BuilderEvent::Polled(polled)) => {
                match check_before_builder(Program::Gvproxy, polled) {
                    Some(error) => BuilderWait::Finished { result: Err(error) },
                    None => BuilderWait::PollRunner { goal },
                }
            },
            (BuilderWait::PollRunner { goal }, BuilderEvent::Polled(polled)) => {
                match check_before_builder(Program::Runner, polled) {
                    Some(error) => BuilderWait::Finished { result: Err(error) },
                    None => BuilderWait::CheckDeadline { goal },
                }
            },
            (BuilderWait::CheckDeadline { goal }, BuilderEvent::Clock(now)) => {
                if has_reached(now, goal.deadline) {
                    BuilderWait::Finished { result: Err(Error::BuilderTimeout { port: goal.port }) }
                } else {
                    BuilderWait::Sleep { goal, millis: BUILDER_POLL_MILLIS }
                }
            },
            (BuilderWait::Sleep { goal, .. }, BuilderEvent::Slept) => BuilderWait::Probe { goal },
            (step, _) => step,
        }
    }
}

/// The error that a poll of `program` is while the builder is awaited, if it is
/// one: the process must be there and running.
pub open spec fn exit_before_builder<S>(
    program: Program,
    polled: Result<Option<ExitStatus>, S>,
) -> Option<Error<S>> {
    match inspection(program, polled) {
        Err(error) => Some(error),
        Ok(Some(status)) => Some(Error::ProcessExitedBeforeBuilder { program, status }),
        Ok(None) => None,
    }
}

fn check_before_builder<S>(program: Program, polled: Result<Option<ExitStatus>, S>) -> (found:
    Option<Error<S>>)
    ensures
        found == exit_before_builder(program, polled),
{
    match try_wait(program, polled) {
        Err(error) => Some(error),
        Ok(Some(status)) => Some(Error::ProcessExitedBeforeBuilder { program, status }),
        Ok(None) => None,
    }
}

/// Begins to wait until the builder answers at `port`, or the clock has come to
/// `deadline`.
pub fn wait_for_builder<S>(port: u16, deadline: u128) -> (step: BuilderWait<S>)
    ensures
        step == (BuilderWait::<S>::Probe { goal: BuilderGoal { port, deadline } }),
{
    BuilderWait::Probe { goal: BuilderGoal { port, deadline } }
}

/// The answers that one round of a wait for the builder would get.
pub struct BuilderRound<S> {
    pub probed: Result<bool, S>,
    pub gvproxy: Result<Option<ExitStatus>, S>,
    pub runner: Result<Option<ExitStatus>, S>,
    pub now: Duration,
}

impl<S> BuilderRound<S> {
    /// How a round ends the wait, if it does: a builder that answers outweighs
    /// gvproxy's state, that the runner's state, and that the clock.
    pub open spec fn verdict(self, goal: BuilderGoal) -> Option<Result<(), Error<S>>> {
        if self.probed == Ok::<bool, S>(true) {
            Some(Ok(()))
        } else if exit_before_builder(Program::Gvproxy, self.gvproxy) is Some {
            Some(Err(exit_before_builder(Program::Gvproxy, self.gvproxy)->0))
        } else if exit_before_builder(Program::Runner, self.runner) is Some {
            Some(Err(exit_before_builder(Program::Runner, self.runner)->0))
        } else if self.now.total() >= goal.deadline {
            Some(Err(Error::BuilderTimeout { port: goal.port }))
        } else {
            None
        }
    }

    pub open spec fn events(self) -> Seq<BuilderEvent<S>> {
        seq![
            BuilderEvent::Probed(self.probed),
            BuilderEvent::Polled(self.gvproxy),
            BuilderEvent::Polled(self.runner),
            BuilderEvent::Clock(self.now),
            BuilderEvent::Slept,
        ]
    }
}

/// The answers of several rounds, one round after the other.
pub open spec fn builder_events<S>(rounds: Seq<BuilderRound<S>>) -> Seq<BuilderEvent<S>>
    decreases rounds.len(),
{
    if rounds.len() == 0 {
        seq![]
    } else {
        builder_events(rounds.drop_last()) + rounds.last().events()
    }
}

proof fn lemma_builder_run_round<S>(
    step: BuilderWait<S>,
    events: Seq<BuilderEvent<S>>,
    round: BuilderRound<S>,
)
    ensures
        step.run(events + round.events()) == step.run(events).next(
            BuilderEvent::Probed(round.probed),
        ).next(BuilderEvent::Polled(round.gvproxy)).next(BuilderEvent::Polled(round.runner)).next(
            BuilderEvent::Clock(round.now),
        ).next(BuilderEvent::Slept),
{
    reveal_with_fuel(BuilderWait::run, 6);
    let all = events + round.events();
    assert(all.drop_last().drop_last().drop_last().drop_last().drop_last() =~= events);
}

/// A wait for the builder goes on, and comes back to trying it, as long as no
/// round ends it.
pub proof fn builder_wait_goes_on<S>(goal: BuilderGoal, rounds: Seq<BuilderRound<S>>)
    requires
        forall|i: int| 0 <= i < rounds.len() ==> (#[trigger] rounds[i]).verdict(goal) is None,
    ensures
        (BuilderWait::Probe { goal }).run(builder_events(rounds)) == (BuilderWait::<S>::Probe {
            goal,
        }),
    decreases rounds.len(),
{
    if rounds.len() > 0 {
        let earlier = rounds.drop_last();
        assert forall|i: int| 0 <= i < earlier.len() implies (#[trigger] earlier[i]).verdict(
            goal,
        ) is None by {
            assert(earlier[i] == rounds[i]);
        }
        builder_wait_goes_on(goal, earlier);
        lemma_builder_run_round(
            BuilderWait::Probe { goal },
            builder_events(earlier),
            rounds.last(),
        );
        assert(rounds.last() == rounds[rounds.len() - 1]);
    }
}

/// A wait for the builder ends with what the first round that ends it says,
/// and no later answer changes that.
pub proof fn builder_wait_ends_with_first_verdict<S>(
    goal: BuilderGoal,
    rounds: Seq<BuilderRound<S>>,
    last: int,
)
    requires
        0 <= last < rounds.len(),
        forall|i: int| 0 <= i < last ==> (#[trigger] rounds[i]).verdict(goal) is None,
        rounds[last].verdict(goal) is Some,
    ensures
        (BuilderWait::Probe { goal }).run(builder_events(rounds)) == (BuilderWait::Finished {
            result: rounds[last].verdict(goal)->0,
        }),
    decreases rounds.len(),
{
    let earlier = rounds.drop_last();
    if last == earlier.len() {
        assert forall|i: int| 0 <= i < earlier.len() implies (#[trigger] earlier[i]).verdict(
            goal,
        ) is None by {
            assert(earlier[i] == rounds[i]);
        }
        builder_wait_goes_on(goal, earlier);
    } else {
        assert forall|i: int| 0 <= i < last implies (#[trigger] earlier[i]).verdict(
            goal,
        ) is None by {
            assert(earlier[i] == rounds[i]);
        }
        builder_wait_ends_with_first_verdict(goal, earlier, last);
    }
    lemma_builder_run_round(BuilderWait::Probe { goal }, builder_events(earlier), rounds.last());
}

/// No round outlasts the deadline: one that reads the clock at or after it
/// ends the wait.
pub proof fn builder_round_ends_at_deadline<S>(goal: BuilderGoal, round: BuilderRound<S>)
    requires
        round.now.total() >= goal.deadline,
    ensures
        round.verdict(goal) is Some,
{
}

/// What a wait for the builder reports has been seen, whatever answers it was
/// given: success means that an attempt found the builder ready, a timeout that
/// the clock had reached the deadline, an exit that a process was found ended
/// with that status.
pub proof fn builder_wait_reports_what_was_seen<S>(
    goal: BuilderGoal,
    events: Seq<BuilderEvent<S>>,
) -> (at: int)
    requires
        (BuilderWait::Probe { goal }).run(events) is Finished,
    ensures
        0 <= at < events.len(),
        ({
            let before = (BuilderWait::Probe { goal }).run(events.take(at));
            let result = (BuilderWait::Probe { goal }).run(events)->result;
            &&& before.pursues(goal)
            &&& before.next(events[at]) == (BuilderWait::Finished { result })
            &&& result is Ok ==> events[at] == BuilderEvent::<S>::Probed(Ok(true))
            &&& result matches Err(error) ==> match error {
                Error::BuilderTimeout { port } => {
                    &&& port == goal.port
                    &&& events[at] is Clock
                    &&& events[at]->Clock_0.total() >= goal.deadline
                },
                Error::ProcessExitedBeforeBuilder { program, status } => {
                    &&& events[at] == BuilderEvent::<S>::Polled(Ok(Some(status)))
                    &&& before == if program == Program::Gvproxy {
                        BuilderWait::<S>::PollGvproxy { goal }
                    } else {
                        BuilderWait::PollRunner { goal }
                    }
                },
                Error::InspectProcess { program, source } => {
                    &&& events[at] == BuilderEvent::<S>::Polled(Err(source))
                    &&& before == if program == Program::Gvproxy {
                        BuilderWait::<S>::PollGvproxy { goal }
                    } else {
                        BuilderWait::PollRunner { goal }
                    }
                },
                _ => false,
            }
        }),
    decreases events.len(),
{
    let start = BuilderWait::<S>::Probe { goal };
    let earlier = events.drop_last();
    if start.run(earlier) is Finished {
        let at = builder_wait_reports_what_was_seen(goal, earlier);
        assert(earlier.take(at) =~= events.take(at));
        at
    } else {
        lemma_builder_wait_pursues(goal, earlier);
        assert(events.take(events.len() - 1) =~= earlier);
        events.len() - 1
    }
}

proof fn lemma_builder_wait_pursues<S>(goal: BuilderGoal, events: Seq<BuilderEvent<S>>)
    ensures
        ({
            let step = (BuilderWait::<S>::Probe { goal }).run(events);
            step is Finished || step.pursues(goal)
        }),
    decreases events.len(),
{
    if events.len() > 0 {
        lemma_builder_wait_pursues(goal, events.drop_last());
    }
}

/// A greeting is that of an SSH server exactly if its first four bytes are those
/// of `SSH-`, whatever follows them.
pub proof fn greeting_is_told_by_four_bytes(bytes: Seq<u8>)
    ensures
        greets_as_ssh(bytes) <==> {
            &&& bytes.len() >= 4
            &&& bytes[0] == 0x53
            &&& bytes[1] == 0x53
            &&& bytes[2] == 0x48
            &&& bytes[3] == 0x2d
        },
{
    let greeting = seq![0x53u8, 0x53u8, 0x48u8, 0x2du8];
    if bytes.len() >= 4 {
        assert(forall|i: int| 0 <= i < 4 ==> bytes[i] == #[trigger] bytes.take(4)[i]);
        if bytes[0] == 0x53 && bytes[1] == 0x53 && bytes[2] == 0x48 && bytes[3] == 0x2d {
            assert(bytes.take(4) =~= greeting);
        } else if bytes.take(4) == greeting {
            assert(bytes.take(4)[0] == 0x53 && bytes.take(4)[1] == 0x53 && bytes.take(4)[2] == 0x48
                && bytes.take(4)[3] == 0x2d);
        }
    }
}

/// An attempt goes to the loopback address and has one second to connect and one
/// to read, up to 255 bytes. Running out of time is no failure and means that
/// the builder is not ready. Any failure is handed back as it is, and else the
/// bytes that were read decide.
pub proof fn probe_comes_to_what_it_meets_first<S>(
    host: &'static str,
    port: u16,
    connected: Timed<Result<(), S>>,
    received: Timed<Result<Vec<u8>, S>>,
)
    ensures
        ({
            let start = BannerProbe::<S>::Connect { host, port, limit_secs: 1 };
            let reading = start.next(BannerEvent::Connected(connected));
            let end = reading.next(BannerEvent::Received(received));
            let ready = |found: bool| BannerProbe::<S>::Finished { result: Ok(found) };
            &&& start.next(BannerEvent::Received(received)) == start
            &&& connected is Elapsed ==> reading == ready(false) && end == reading
            &&& connected matches Timed::Completed(Err(source)) ==> {
                &&& reading == (BannerProbe::<S>::Finished { result: Err(source) })
                &&& end == reading
            }
            &&& connected matches Timed::Completed(Ok(_)) ==> {
                &&& reading == (BannerProbe::<S>::Read { capacity: 255, limit_secs: 1 })
                &&& reading.next(BannerEvent::Connected(connected)) == reading
                &&& match received {
                    Timed::Elapsed => end == ready(false),
                    Timed::Completed(Err(source)) => end == (BannerProbe::<S>::Finished {
                        result: Err(source),
                    }),
                    Timed::Completed(Ok(bytes)) => end == ready(greets_as_ssh(bytes@)),
                }
            }
        }),
{
}

/// The builder is reached at the loopback address, within a second.
pub proof fn builder_is_probed_locally()
    ensures
        BUILDER_HOST@ == "127.0.0.1"@,
        PROBE_TIMEOUT_SECS == 1,
{
}

/// While the builder is awaited, a process that has ended or cannot be polled is
/// an error, which names its program; one that runs is none.
pub proof fn only_running_processes_are_awaited<S>(
    program: Program,
    polled: Result<Option<ExitStatus>, S>,
)
    ensures
        match exit_before_builder(program, polled) {
            None => polled == Ok::<Option<ExitStatus>, S>(None),
            Some(error) => {
                &&& polled matches Err(source) ==> error == (Error::InspectProcess {
                    program,
                    source,
                })
                &&& polled matches Ok(found) ==> found matches Some(status) && error == (
                Error::<S>::ProcessExitedBeforeBuilder { program, status })
            },
        },
{
}

/// Whether none of `rounds` finds the builder ready, both processes run in all
/// of them, and the clock has not come to the deadline in any.
pub open spec fn not_ready_yet<S>(rounds: Seq<BuilderRound<S>>, deadline: u128) -> bool {
    forall|i: int|
        0 <= i < rounds.len() ==> {
            &&& (#[trigger] rounds[i]).probed != Ok::<bool, S>(true)
            &&& rounds[i].gvproxy == Ok::<Option<ExitStatus>, S>(None)
            &&& rounds[i].runner == Ok::<Option<ExitStatus>, S>(None)
            &&& rounds[i].now.total() < deadline
        }
}

/// A wait for the builder ends in the first round in which the builder answers,
/// or a process has ended or cannot be polled, or the clock has come to the
/// deadline, and with what of these comes first. Until then it goes on; that an
/// attempt fails, however it does, ends nothing.
pub proof fn builder_wait_comes_to_what_is_seen_first<S>(
    goal: BuilderGoal,
    rounds: Seq<BuilderRound<S>>,
    last: BuilderRound<S>,
)
    requires
        not_ready_yet(rounds, goal.deadline),
    ensures
        ({
            let start = BuilderWait::<S>::Probe { goal };
            let end = start.run(builder_events(rounds.push(last)));
            let failure = |error: Error<S>| BuilderWait::<S>::Finished { result: Err(error) };
            let alive = Ok::<Option<ExitStatus>, S>(None);
            &&& start.run(builder_events(rounds)) == start
            &&& last.probed == Ok::<bool, S>(true) ==> end == (BuilderWait::<S>::Finished {
                result: Ok(()),
            })
            &&& last.probed != Ok::<bool, S>(true) ==> {
                let (program, polled) = if last.gvproxy != alive {
                    (Program::Gvproxy, last.gvproxy)
                } else {
                    (Program::Runner, last.runner)
                };
                match polled {
                    Err(source) => end == failure(Error::InspectProcess { program, source }),
                    Ok(Some(status)) => end == failure(
                        Error::ProcessExitedBeforeBuilder { program, status },
                    ),
                    Ok(None) => if last.now.total() >= goal.deadline {
                        end == failure(Error::BuilderTimeout { port: goal.port })
                    } else {
                        end == start
                    },
                }
            }
        }),
{
    let all = rounds.push(last);
    assert forall|i: int| 0 <= i < rounds.len() implies (#[trigger] all[i]).verdict(
        goal,
    ) is None && rounds[i].verdict(goal) is None by {
        assert(all[i] == rounds[i]);
        assert(rounds[i].gvproxy == Ok::<Option<ExitStatus>, S>(None));
    }
    builder_wait_goes_on(goal, rounds);
    assert(all[rounds.len() as int] == last);
    if last.verdict(goal) is Some {
        builder_wait_ends_with_first_verdict(goal, all, rounds.len() as int);
    } else {
        builder_wait_goes_on(goal, all);
    }
}

/// In each round the builder is tried first, then gvproxy is polled, then the
/// runner, then the clock is read, and after a quarter of a second the builder
/// is tried again. No other answer moves the wait.
pub proof fn only_answers_move_a_builder_wait<S>(
    goal: BuilderGoal,
    events: Seq<BuilderEvent<S>>,
    event: BuilderEvent<S>,
)
    ensures
        ({
            let step = (BuilderWait::<S>::Probe { goal }).run(events);
            let after = step.next(event);
            &&& step matches BuilderWait::Sleep { millis, .. } ==> millis == 250
            &&& after is Probe ==> step is Probe || step is Sleep
            &&& after is PollGvproxy ==> step is PollGvproxy || step is Probe
            &&& after is PollRunner ==> step is PollRunner || step is PollGvproxy
            &&& after is CheckDeadline ==> step is CheckDeadline || step is PollRunner
            &&& after is Sleep ==> step is Sleep || step is CheckDeadline
            &&& after != step <==> match event {
                BuilderEvent::Probed(_) => step is Probe,
                BuilderEvent::Polled(_) => step is PollGvproxy || step is PollRunner,
                BuilderEvent::Clock(_) => step is CheckDeadline,
                BuilderEvent::Slept => step is Sleep,
            }
            &&& step is Finished || step.pursues(goal)
        }),
    decreases events.len(),
{
    lemma_builder_wait_pursues(goal, events);
    if events.len() > 0 {
        only_answers_move_a_builder_wait(goal, events.drop_last(), events.last());
    }
}

} // verus!
