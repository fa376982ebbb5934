//! Ending a process group: `SIGTERM`, a grace period, then `SIGKILL`.

use crate::error::{Error, ExitStatus, Signal};
use crate::process::{
    inspection, send_process_group_signal, signal_sent, try_wait, ProcessGroup,
};
use crate::time::{deadline, deadline_after, has_reached, Duration};
use vstd::prelude::*;

verus! {

/// The pause between two polls of a process that was asked to end.
pub const TERMINATION_POLL_MILLIS: u64 = 100;

/// The termination of one process group, by what is to be done next.
#[derive(Debug, PartialEq, Eq)]
pub enum Termination<S> {
    /// Poll the process, which may have ended by itself.
    FirstPoll { group: ProcessGroup, grace: Duration },
    /// Send `SIGTERM` to the group.
    SendTerm { group: ProcessGroup, grace: Duration },
    /// Read the clock: the grace period begins.
    StartGrace { group: ProcessGroup, grace: Duration },
    /// Poll the process.
    Poll { group: ProcessGroup, deadline: u128 },
    /// Read the clock: the grace period may be over.
    CheckDeadline { group: ProcessGroup, deadline: u128 },
    /// Sleep for so many milliseconds.
    Sleep { group: ProcessGroup, deadline: u128, millis: u64 },
    /// Send `SIGKILL` to the group.
    SendKill { group: ProcessGroup },
    /// Wait for the process to end.
    Reap { group: ProcessGroup },
    /// Nothing is left to do.
    Finished { result: Result<(), Error<S>> },
}

/// The answer to a step of a termination.
#[derive(Debug, PartialEq, Eq)]
pub enum TerminationEvent<S> {
    Polled(Result<Option<ExitStatus>, S>),
    Signalled(Result<(), i32>),
    Clock(Duration),
    Slept,
    Reaped(Result<(), S>),
}

impl<S> Termination<S> {
    /// The step after this one, given the answer to it. An answer to some
    /// other step changes nothing.
    pub open spec fn next(self, event: TerminationEvent<S>) -> Self {
        match (self, event) {
            (Termination::FirstPoll { group, grace }, TerminationEvent::Polled(polled)) => {
                match inspection(group.program, polled) {
                    Err(error) => Termination::Finished { result: Err(error) },
                    Ok(Some(_)) => Termination::Finished { result: Ok(()) },
                    Ok(None) => Termination::SendTerm { group, grace },
                }
            },
            (Termination::SendTerm { group, grace }, TerminationEvent::Signalled(outcome)) => {
                if signal_sent(outcome) {
                    Termination::StartGrace { group, grace }
                } else {
                    Termination::Finished {
                        result: Err(
                            Error::SignalProcessGroup {
                                program: group.program,
                                signal: Signal::Term,
                                errno: outcome->Err_0,
                            },
                        ),
                    }
                }
            },
            (Termination::StartGrace { group, grace }, TerminationEvent::Clock(now)) => {
                Termination::Poll { group, deadline: deadline(now, grace) }
            },
            (Termination::Poll { group, deadline }, TerminationEvent::Polled(polled)) => {
                match inspection(group.program, polled) {
                    Err(error) => Termination::Finished { result: Err(error) },
                    Ok(Some(_)) => Termination::Finished { result: Ok(()) },
                    Ok(None) => Termination::CheckDeadline { group, deadline },
                }
            },
            (Termination::CheckDeadline { group, deadline }, TerminationEvent::Clock(now)) => {
                if now.total() >= deadline {
                    Termination::SendKill { group }
                } else {
                    Termination::Sleep { group, deadline, millis: TERMINATION_POLL_MILLIS }
                }
            },
            (Termination::Sleep { group, deadline, .. }, TerminationEvent::Slept) => {
                Termination::Poll { group, deadline }
            },
            (Termination::SendKill { group }, TerminationEvent::Signalled(outcome)) => {
                if signal_sent(outcome) {
                    Termination::Reap { group }
                } else {
                    Termination::Finished {
                        result: Err(
                            Error::SignalProcessGroup {
                                program: group.program,
                                signal: Signal::Kill,
                                errno: outcome->Err_0,
                            },
                        ),
                    }
                }
            },
            (Termination::Reap { group }, TerminationEvent::Reaped(outcome)) => {
                Termination::Finished {
                    result: match outcome {
                        Ok(_) => Ok(()),
                        Err(source) => Err(Error::ReapProcess { program: group.program, source }),
                    },
                }
            },
            _ => self,
        }
    }

    /// The step that is reached once all of `events` have been taken, in order.
    pub open spec fn run(self, events: Seq<TerminationEvent<S>>) -> Self
        decreases events.len(),
    {
        if events.len() == 0 {
            self
        } else {
            self.run(events.drop_last()).next(events.last())
        }
    }

    pub fn advance(self, event: TerminationEvent<S>) -> (step: Self)
        ensures
            step == self.next(event),
    {
        match (self, event) {
            (Termination::FirstPoll { group, grace }, TerminationEvent::Polled(polled)) => {
                match try_wait(group.program, polled) {
                    Err(error) => Termination::Finished { result: Err(error) },
                    Ok(Some(_)) => Termination::Finished { result: Ok(()) },
                    Ok(None) => Termination::SendTerm { group, grace },
                }
            },
            (Termination::SendTerm { group, grace }, TerminationEvent::Signalled(outcome)) => {
                match send_process_group_signal(group.program, Signal::Term, outcome) {
                    Err(error) => Termination::Finished { result: Err(error) },
                    Ok(_) => Termination::StartGrace { group, grace },
                }
            },
            (Termination::StartGrace { group, grace }, TerminationEvent::Clock(now)) => {
                Termination::Poll { group, deadline: deadline_after(now, grace) }
            },
            (Termination::Poll { group, deadline }, TerminationEvent::Polled(polled)) => {
                match try_wait(group.program, polled) {
                    Err(error) => Termination::Finished { result: Err(error) },
                    Ok(Some(_)) => Termination::Finished { result: Ok(()) },
                    Ok(None) => Termination::CheckDeadline { group, deadline },
                }
            },
            (Termination::CheckDeadline { group, deadline }, TerminationEvent::Clock(now)) => {
                if has_reached(now, deadline) {
                    Termination::SendKill { group }
                } else {
                    Termination::Sleep { group, deadline, millis: TERMINATION_POLL_MILLIS }
                }
            },
            (Termination::Sleep { group, deadline, .. }, TerminationEvent::Slept) => {
                Termination::Poll { group, deadline }
            },
            (Termination::SendKill { group }, TerminationEvent::Signalled(outcome)) => {
                match send_process_group_signal(group.program, Signal::Kill, outcome) {
                    Err(error) => Termination::Finished { result: Err(error) },
                    Ok(_) => Termination::Reap { group },
                }
            },
            (Termination::Reap { group }, TerminationEvent::Reaped(outcome)) => {
                match outcome {
                    Ok(_) => Termination::Finished { result: Ok(()) },
                    Err(source) => Termination::Finished {
                        result: Err(Error::ReapProcess { program: group.program, source }),
                    },
                }
            },
            (step, _) => step,
        }
    }
}

/// Begins to end a process group.
pub fn terminate_process_group<S>(group: ProcessGroup, grace: Duration) -> (step: Termination<S>)
    ensures
        step == (Termination::<S>::FirstPoll { group, grace }),
{
    Termination::FirstPoll { group, grace }
}

/// Whether the answer at `at` began the grace period: `SIGTERM` had been sent,
/// and the clock was read.
pub open spec fn grace_began<S>(
    start: Termination<S>,
    events: Seq<TerminationEvent<S>>,
    at: int,
) -> bool {
    &&& 0 <= at < events.len()
    &&& start.run(events.take(at)) is StartGrace
    &&& events[at] is Clock
}

/// Whether `SIGTERM` was sent with the answer at `at`.
pub open spec fn term_sent<S>(
    start: Termination<S>,
    events: Seq<TerminationEvent<S>>,
    at: int,
) -> bool {
    &&& 0 <= at < events.len()
    &&& start.run(events.take(at)) is SendTerm
    &&& events[at] is Signalled
    &&& signal_sent(events[at]->Signalled_0)
}

proof fn lemma_take_of_earlier<S>(events: Seq<TerminationEvent<S>>, at: int)
    requires
        0 <= at < events.len(),
    ensures
        events.drop_last().take(at) == events.take(at),
        at < events.len() - 1 ==> events.drop_last()[at] == events[at],
        events.take(events.len() - 1) == events.drop_last(),
{
    assert(events.drop_last().take(at) =~= events.take(at));
    assert(events.take(events.len() - 1) =~= events.drop_last());
}

/// Once a termination has got as far as `StartGrace`, `SIGTERM` has been sent.
proof fn lemma_term_before_grace<S>(
    group: ProcessGroup,
    grace: Duration,
    events: Seq<TerminationEvent<S>>,
) -> (term: int)
    requires
        (Termination::<S>::FirstPoll { group, grace }).run(events) is StartGrace,
    ensures
        term_sent(Termination::<S>::FirstPoll { group, grace }, events, term),
    decreases events.len(),
{
    let start = Termination::<S>::FirstPoll { group, grace };
    let earlier = events.drop_last();
    if start.run(earlier) is StartGrace {
        let term = lemma_term_before_grace(group, grace, earlier);
        lemma_take_of_earlier(events, term);
        term
    } else {
        lemma_take_of_earlier(events, events.len() - 1);
        events.len() - 1
    }
}

/// What is known at each step of a termination that began as `FirstPoll`.
spec fn on_course<S>(group: ProcessGroup, grace: Duration, events: Seq<TerminationEvent<S>>) -> bool {
    let start = Termination::<S>::FirstPoll { group, grace };
    let within = |g: ProcessGroup, limit: u128|
        g == group && exists|at: int| #[trigger]
            grace_began(start, events, at) && limit == deadline(events[at]->Clock_0, grace);
    match start.run(events) {
        Termination::FirstPoll { group: g, grace: length } => g == group && length == grace,
        Termination::SendTerm { group: g, grace: length } => g == group && length == grace,
        Termination::StartGrace { group: g, grace: length } => g == group && length == grace,
        Termination::Poll { group: g, deadline } => within(g, deadline),
        Termination::CheckDeadline { group: g, deadline } => within(g, deadline),
        Termination::Sleep { group: g, deadline, .. } => within(g, deadline),
        Termination::SendKill { group: g } => g == group && grace_over(start, events, grace),
        Termination::Reap { group: g } => g == group && grace_over(start, events, grace),
        Termination::Finished { .. } => true,
    }
}

/// Whether the clock was read twice, the first time after `SIGTERM` had been
/// sent, the second time at least `grace` later.
pub open spec fn grace_over<S>(
    start: Termination<S>,
    events: Seq<TerminationEvent<S>>,
    grace: Duration,
) -> bool {
    exists|began: int, over: int| #[trigger]
        grace_passed(start, events, grace, began, over)
}

/// The same, for the two readings at `began` and `over`.
pub open spec fn grace_passed<S>(
    start: Termination<S>,
    events: Seq<TerminationEvent<S>>,
    grace: Duration,
    began: int,
    over: int,
) -> bool {
    &&& grace_began(start, events, began)
    &&& began < over < events.len()
    &&& events[over] is Clock
    &&& events[over]->Clock_0.total() >= events[began]->Clock_0.total() + grace.total()
}

proof fn lemma_on_course<S>(group: ProcessGroup, grace: Duration, events: Seq<TerminationEvent<S>>)
    ensures
        on_course(group, grace, events),
    decreases events.len(),
{
    let start = Termination::<S>::FirstPoll { group, grace };
    if events.len() > 0 {
        let earlier = events.drop_last();
        lemma_on_course(group, grace, earlier);
        assert forall|at: int| #[trigger] grace_began(start, earlier, at) implies grace_began(
            start,
            events,
            at,
        ) && events[at] == earlier[at] by {
            lemma_take_of_earlier(events, at);
        }
        lemma_take_of_earlier(events, events.len() - 1);
        match (start.run(earlier), events.last()) {
            (Termination::StartGrace { .. }, TerminationEvent::Clock(now)) => {
                assert(grace_began(start, events, events.len() - 1));
            },
            (
                Termination::CheckDeadline { deadline: limit, .. },
                TerminationEvent::Clock(now),
            ) => {
                let at = choose|at: int| #[trigger]
                    grace_began(start, earlier, at) && limit == deadline(
                        earlier[at]->Clock_0,
                        grace,
                    );
                assert(grace_began(start, events, at));
                if now.total() >= limit {
                    assert(grace_passed(start, events, grace, at, events.len() - 1));
                }
            },
            _ => {
                if grace_over(start, earlier, grace) {
                    let (began, over) = choose|began: int, over: int| #[trigger]
                        grace_passed(start, earlier, grace, began, over);
                    assert(grace_began(start, events, began));
                    assert(grace_passed(start, events, grace, began, over));
                }
            },
        }
    }
}

/// `SIGKILL` is sent only after `SIGTERM`, and only once the grace period has
/// passed: between the two, the clock was read twice, and the readings lie at
/// least `grace` apart.
pub proof fn kill_comes_after_grace<S>(
    group: ProcessGroup,
    grace: Duration,
    events: Seq<TerminationEvent<S>>,
) -> (witness: (int, int, int))
    requires
        (Termination::<S>::FirstPoll { group, grace }).run(events) is SendKill,
    ensures
        ({
            let start = Termination::<S>::FirstPoll { group, grace };
            let (term, began, over) = witness;
            &&& term < began
            &&& term_sent(start, events, term)
            &&& grace_passed(start, events, grace, began, over)
        }),
{
    let start = Termination::<S>::FirstPoll { group, grace };
    lemma_on_course(group, grace, events);
    let (began, over) = choose|began: int, over: int| #[trigger]
        grace_passed(start, events, grace, began, over);
    let term = lemma_term_before_grace(group, grace, events.take(began));
    assert(events.take(began).take(term) =~= events.take(term));
    (term, began, over)
}

/// All signals of a termination go to the process group that it was begun for.
pub proof fn signals_go_to_one_group<S>(
    group: ProcessGroup,
    grace: Duration,
    events: Seq<TerminationEvent<S>>,
)
    ensures
        match (Termination::<S>::FirstPoll { group, grace }).run(events) {
            Termination::SendTerm { group: signalled, .. } => signalled == group,
            Termination::SendKill { group: signalled } => signalled == group,
            _ => true,
        },
{
    lemma_on_course(group, grace, events);
}

/// A termination that succeeds has seen its process end: a poll found it
/// exited, or it was reaped after `SIGKILL`.
pub proof fn success_means_the_process_ended<S>(
    group: ProcessGroup,
    grace: Duration,
    events: Seq<TerminationEvent<S>>,
) -> (at: int)
    requires
        (Termination::<S>::FirstPoll { group, grace }).run(events) == (Termination::<
            S,
        >::Finished { result: Ok(()) }),
    ensures
        0 <= at < events.len(),
        ({
            let before = (Termination::<S>::FirstPoll { group, grace }).run(events.take(at));
            ||| (before is FirstPoll || before is Poll) && events[at] matches TerminationEvent::Polled(
                Ok(Some(_)),
            )
            ||| before is Reap && events[at] matches TerminationEvent::Reaped(Ok(_))
        }),
    decreases events.len(),
{
    let start = Termination::<S>::FirstPoll { group, grace };
    let earlier = events.drop_last();
    if start.run(earlier) is Finished {
        let at = success_means_the_process_ended(group, grace, earlier);
        lemma_take_of_earlier(events, at);
        at
    } else {
        lemma_take_of_earlier(events, events.len() - 1);
        events.len() - 1
    }
}

/// The answers that one round of a grace period would get.
pub struct GraceRound<S> {
    pub polled: Result<Option<ExitStatus>, S>,
    pub now: Duration,
}

impl<S> GraceRound<S> {
    /// Where a round leads out of the grace period, if it does.
    pub open spec fn verdict(self, group: ProcessGroup, limit: u128) -> Option<Termination<S>> {
        match inspection(group.program, self.polled) {
            Err(error) => Some(Termination::Finished { result: Err(error) }),
            Ok(Some(_)) => Some(Termination::Finished { result: Ok(()) }),
            Ok(None) => if self.now.total() >= limit {
                Some(Termination::SendKill { group })
            } else {
                None
            },
        }
    }

    pub open spec fn events(self) -> Seq<TerminationEvent<S>> {
        seq![
            TerminationEvent::Polled(self.polled),
            TerminationEvent::Clock(self.now),
            TerminationEvent::Slept,
        ]
    }
}

/// The answers of several rounds, one round after the other.
pub open spec fn grace_events<S>(rounds: Seq<GraceRound<S>>) -> Seq<TerminationEvent<S>>
    decreases rounds.len(),
{
    if rounds.len() == 0 {
        seq![]
    } else {
        grace_events(rounds.drop_last()) + rounds.last().events()
    }
}

proof fn lemma_run_round<S>(
    step: Termination<S>,
    events: Seq<TerminationEvent<S>>,
    round: GraceRound<S>,
)
    ensures
        step.run(events + round.events()) == step.run(events).next(
            TerminationEvent::Polled(round.polled),
        ).next(TerminationEvent::Clock(round.now)).next(TerminationEvent::Slept),
{
    reveal_with_fuel(Termination::run, 4);
    let all = events + round.events();
    assert(all.drop_last().drop_last().drop_last() =~= events);
}

/// The grace period goes on as long as the process runs and the clock has not
/// reached its end.
pub proof fn grace_goes_on<S>(group: ProcessGroup, limit: u128, rounds: Seq<GraceRound<S>>)
    requires
        forall|i: int|
            0 <= i < rounds.len() ==> (#[trigger] rounds[i]).verdict(group, limit) is None,
    ensures
        (Termination::Poll { group, deadline: limit }).run(grace_events(rounds)) == (Termination::<
            S,
        >::Poll { group, deadline: limit }),
    decreases rounds.len(),
{
    if rounds.len() > 0 {
        let earlier = rounds.drop_last();
        assert forall|i: int| 0 <= i < earlier.len() implies (#[trigger] earlier[i]).verdict(
            group,
            limit,
        ) is None by {
            assert(earlier[i] == rounds[i]);
        }
        grace_goes_on(group, limit, earlier);
        lemma_run_round(
            Termination::Poll { group, deadline: limit },
            grace_events(earlier),
            rounds.last(),
        );
        assert(rounds.last() == rounds[rounds.len() - 1]);
    }
}

/// The grace period ends with the first round that leads out of it: in an
/// answer if the process ended or could not be polled, else, once the clock has
/// reached its end, in `SIGKILL`.
pub proof fn grace_ends_with_first_verdict<S>(
    group: ProcessGroup,
    limit: u128,
    rounds: Seq<GraceRound<S>>,
)
    requires
        rounds.len() > 0,
        forall|i: int|
            0 <= i < rounds.len() - 1 ==> (#[trigger] rounds[i]).verdict(group, limit) is None,
        rounds.last().verdict(group, limit) is Some,
    ensures
        (Termination::Poll { group, deadline: limit }).run(grace_events(rounds))
            == rounds.last().verdict(group, limit)->0,
{
    let earlier = rounds.drop_last();
    assert forall|i: int| 0 <= i < earlier.len() implies (#[trigger] earlier[i]).verdict(
        group,
        limit,
    ) is None by {
        assert(earlier[i] == rounds[i]);
    }
    grace_goes_on(group, limit, earlier);
    lemma_run_round(
        Termination::Poll { group, deadline: limit },
        grace_events(earlier),
        rounds.last(),
    );
}

/// Whether a process runs in each of `rounds`, and the clock does not come to
/// `grace` after `began` before the last of them.
pub open spec fn runs_through<S>(
    rounds: Seq<GraceRound<S>>,
    began: Duration,
    grace: Duration,
) -> bool {
    &&& forall|i: int|
        0 <= i < rounds.len() ==> (#[trigger] rounds[i]).polled == Ok::<Option<ExitStatus>, S>(None)
    &&& forall|i: int|
        0 <= i < rounds.len() - 1 ==> (#[trigger] rounds[i]).now.total() < began.total()
            + grace.total()
}

/// A process that never exits gets `SIGTERM` and, in the first round in which
/// the clock has come to the grace period after `SIGTERM` was sent, `SIGKILL`.
/// This holds of every program and every group. Then it is reaped, and that is
/// what the termination comes to.
pub proof fn stubborn_process_is_killed<S>(
    group: ProcessGroup,
    grace: Duration,
    term: Result<(), i32>,
    began: Duration,
    rounds: Seq<GraceRound<S>>,
    kill: Result<(), i32>,
    reaped: Result<(), S>,
)
    requires
        term matches Err(code) ==> code == 3,
        kill matches Err(code) ==> code == 3,
        rounds.len() > 0,
        runs_through(rounds, began, grace),
        rounds.last().now.total() >= began.total() + grace.total(),
    ensures
        ({
            let asked = (Termination::<S>::FirstPoll { group, grace }).next(
                TerminationEvent::Polled(Ok(None)),
            );
            let signalled = asked.next(TerminationEvent::Signalled(term));
            let over = signalled.next(TerminationEvent::Clock(began)).run(grace_events(rounds));
            let killed = over.next(TerminationEvent::Signalled(kill));
            &&& asked == (Termination::<S>::SendTerm { group, grace })
            &&& signalled is StartGrace
            &&& over == (Termination::<S>::SendKill { group })
            &&& killed is Reap
            &&& killed.next(TerminationEvent::Reaped(reaped)) matches Termination::Finished {
                result,
            }
            &&& reaped is Ok ==> result is Ok
            &&& reaped matches Err(source) ==> result == Err::<(), Error<S>>(
                Error::ReapProcess { program: group.program, source },
            )
        }),
{
    let limit = deadline(began, grace);
    let last = rounds.last();
    assert(last == rounds[rounds.len() - 1]);
    assert forall|i: int| 0 <= i < rounds.len() - 1 implies (#[trigger] rounds[i]).verdict(
        group,
        limit,
    ) is None by {
        assert(rounds[i].polled == Ok::<Option<ExitStatus>, S>(None));
    }
    grace_ends_with_first_verdict(group, limit, rounds);
}

/// As long as the process runs and the grace period has not passed, neither
/// signal is due: the process is polled again, for the same group and up to the
/// same moment.
pub proof fn grace_is_granted<S>(
    group: ProcessGroup,
    grace: Duration,
    began: Duration,
    rounds: Seq<GraceRound<S>>,
)
    requires
        runs_through(rounds, began, grace),
        rounds.len() > 0 ==> rounds.last().now.total() < began.total() + grace.total(),
    ensures
        ({
            let begun = (Termination::<S>::StartGrace { group, grace }).next(
                TerminationEvent::Clock(began),
            );
            &&& begun.run(grace_events(rounds)) matches Termination::Poll {
                group: polled,
                deadline: limit,
            }
            &&& polled == group
            &&& limit == began.total() + grace.total()
        }),
{
    assert forall|i: int| 0 <= i < rounds.len() implies (#[trigger] rounds[i]).verdict(
        group,
        deadline(began, grace),
    ) is None by {
        assert(rounds[i].polled == Ok::<Option<ExitStatus>, S>(None));
        assert(i == rounds.len() - 1 ==> rounds[i] == rounds.last());
    }
    grace_goes_on(group, deadline(began, grace), rounds);
}

/// A process that is found ended, at first or in any round of the grace period,
/// needs no further signal: the termination has succeeded, whatever the status.
/// A process that cannot be polled ends the termination with an error that names
/// its program.
pub proof fn first_telling_poll_ends_the_termination<S>(
    group: ProcessGroup,
    grace: Duration,
    began: Duration,
    rounds: Seq<GraceRound<S>>,
    last: GraceRound<S>,
)
    requires
        runs_through(rounds, began, grace),
        rounds.len() > 0 ==> rounds.last().now.total() < began.total() + grace.total(),
        last.polled != Ok::<Option<ExitStatus>, S>(None),
    ensures
        ({
            let first = (Termination::<S>::FirstPoll { group, grace }).next(
                TerminationEvent::Polled(last.polled),
            );
            let later = (Termination::<S>::StartGrace { group, grace }).next(
                TerminationEvent::Clock(began),
            ).run(grace_events(rounds)).next(TerminationEvent::Polled(last.polled));
            &&& first matches Termination::Finished { result }
            &&& later == first
            &&& last.polled is Ok ==> result is Ok
            &&& last.polled matches Err(source) ==> result == Err::<(), Error<S>>(
                Error::InspectProcess { program: group.program, source },
            )
        }),
{
    grace_is_granted(group, grace, began, rounds);
}

/// A signal that could not be sent, though there was a process to send it to,
/// ends the termination with an error that names the program, the signal and the
/// code.
pub proof fn unsent_signal_ends_the_termination<S>(group: ProcessGroup, grace: Duration, code: i32)
    requires
        code != 3,
    ensures
        (Termination::<S>::SendTerm { group, grace }).next(TerminationEvent::Signalled(Err(code)))
            == (Termination::<S>::Finished {
            result: Err(
                Error::SignalProcessGroup {
                    program: group.program,
                    signal: Signal::Term,
                    errno: code,
                },
            ),
        }),
        (Termination::<S>::SendKill { group }).next(TerminationEvent::Signalled(Err(code))) == (
        Termination::<S>::Finished {
            result: Err(
                Error::SignalProcessGroup {
                    program: group.program,
                    signal: Signal::Kill,
                    errno: code,
                },
            ),
        }),
{
}

/// Between two polls a tenth of a second passes.
pub proof fn termination_polls_ten_times_a_second<S>(
    group: ProcessGroup,
    grace: Duration,
    events: Seq<TerminationEvent<S>>,
)
    ensures
        (Termination::<S>::FirstPoll { group, grace }).run(events) matches Termination::Sleep {
            millis,
            ..
        } ==> millis == 100,
    decreases events.len(),
{
    if events.len() > 0 {
        termination_polls_ten_times_a_second(group, grace, events.drop_last());
    }
}

/// A termination moves on with every answer to its step, and with nothing else.
pub proof fn only_answers_move_a_termination<S>(step: Termination<S>, event: TerminationEvent<S>)
    ensures
        step.next(event) != step <==> match event {
            TerminationEvent::Polled(_) => step is FirstPoll || step is Poll,
            TerminationEvent::Signalled(_) => step is SendTerm || step is SendKill,
            TerminationEvent::Clock(_) => step is StartGrace || step is CheckDeadline,
            TerminationEvent::Slept => step is Sleep,
            TerminationEvent::Reaped(_) => step is Reap,
        },
{
}

} // verus!
