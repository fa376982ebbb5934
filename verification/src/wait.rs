//! Waiting until a process has created a path.

use crate::error::{Error, ExitStatus, Program};
use crate::process::{inspection, try_wait};
use crate::time::{has_reached, Duration};
use vstd::prelude::*;

verus! {

/// The pause between two looks at an awaited path.
pub const PATH_POLL_MILLIS: u64 = 100;

/// The path that is awaited, the program that should create it, and the moment
/// on the clock, in nanoseconds, from which the wait is given up.
#[derive(Debug, PartialEq, Eq)]
pub struct PathGoal {
    pub program: Program,
    pub path: Vec<u8>,
    pub deadline: u128,
}

/// A wait for a path, by what is to be done next.
#[derive(Debug, PartialEq, Eq)]
pub enum PathWait<S> {
    /// Look whether the path exists.
    CheckPath { goal: PathGoal },
    /// Poll the process that should create it.
    Poll { goal: PathGoal },
    /// Read the clock.
    CheckDeadline { goal: PathGoal },
    /// Sleep for so many milliseconds.
    Sleep { goal: PathGoal, millis: u64 },
    /// Nothing is left to do.
    Finished { result: Result<(), Error<S>> },
}

/// The answer to a step of a wait for a path.
#[derive(Debug, PartialEq, Eq)]
pub enum PathEvent<S> {
    PathChecked(bool),
    Polled(Result<Option<ExitStatus>, S>),
    Clock(Duration),
    Slept,
}

impl<S> PathWait<S> {
    /// The step after this one, given the answer to it. An answer to some
    /// other step changes nothing.
    pub open spec fn next(self, event: PathEvent<S>) -> Self {
        match (self, event) {
            (PathWait::CheckPath { goal }, PathEvent::PathChecked(exists)) => {
                if exists {
                    PathWait::Finished { result: Ok(()) }
                } else {
                    PathWait::Poll { goal }
                }
            },
            (PathWait::Poll { goal }, PathEvent::Polled(polled)) => {
                match inspection(goal.program, polled) {
                    Err(error) => PathWait::Finished { result: Err(error) },
                    Ok(Some(status)) => PathWait::Finished {
                        result: Err(
                            Error::ProcessExitedBeforePath {
                                program: goal.program,
                                path: goal.path,
                                status,
                            },
                        ),
                    },
                    Ok(None) => PathWait::CheckDeadline { goal },
                }
            },
            (PathWait::CheckDeadline { goal }, PathEvent::Clock(now)) => {
                if now.total() >= goal.deadline {
                    PathWait::Finished {
                        result: Err(Error::PathTimeout { program: goal.program, path: goal.path }),
                    }
                } else {
                    PathWait::Sleep { goal, millis: PATH_POLL_MILLIS }
                }
            },
            (PathWait::Sleep { goal, .. }, PathEvent::Slept) => PathWait::CheckPath { goal },
            _ => self,
        }
    }

    /// The step that is reached once all of `events` have been taken, in order.
    pub open spec fn run(self, events: Seq<PathEvent<S>>) -> Self
        decreases events.len(),
    {
        if events.len() == 0 {
            self
        } else {
            self.run(events.drop_last()).next(events.last())
        }
    }

    /// Whether this is a step of a wait for `goal` that has not ended.
    pub open spec fn pursues(self, goal: PathGoal) -> bool {
        match self {
            PathWait::CheckPath { goal: g } => g == goal,
            PathWait::Poll { goal: g } => g == goal,
            PathWait::CheckDeadline { goal: g } => g == goal,
            PathWait::Sleep { goal: g, .. } => g == goal,
            PathWait::Finished { .. } => false,
        }
    }

    pub fn advance(self, event: PathEvent<S>) -> (step: Self)
        ensures
            step == self.next(event),
    {
        match (self, event) {
            (PathWait::CheckPath { goal }, PathEvent::PathChecked(exists)) => {
                if exists {
                    PathWait::Finished { result: Ok(()) }
                } else {
                    PathWait::Poll { goal }
                }
            },
            (PathWait::Poll { goal }, PathEvent::Polled(polled)) => {
                match try_wait(goal.program, polled) {
                    Err(error) => PathWait::Finished { result: Err(error) },
                    Ok(Some(status)) => PathWait::Finished {
                        result: Err(
                            Error::ProcessExitedBeforePath {
                                program: goal.program,
                                path: goal.path,
                                status,
                            },
                        ),
                    },
                    Ok(None) => PathWait::CheckDeadline { goal },
                }
            },
            (PathWait::CheckDeadline { goal }, PathEvent::Clock(now)) => {
                if has_reached(now, goal.deadline) {
                    PathWait::Finished {
                        result: Err(Error::PathTimeout { program: goal.program, path: goal.path }),
                    }
                } else {
                    PathWait::Sleep { goal, millis: PATH_POLL_MILLIS }
                }
            },
            (PathWait::Sleep { goal, .. }, PathEvent::Slept) => PathWait::CheckPath { goal },
            (step, _) => step,
        }
    }
}

/// Begins to wait until `program` has created `path`, or the clock has come to
/// `deadline`.
pub fn wait_for_path<S>(path: Vec<u8>, program: Program, deadline: u128) -> (step: PathWait<S>)
    ensures
        step == (PathWait::<S>::CheckPath { goal: PathGoal { program, path, deadline } }),
{
    PathWait::CheckPath { goal: PathGoal { program, path, deadline } }
}

/// The answers that one round of a wait for a path would get.
pub struct PathRound<S> {
    pub exists: bool,
    pub polled: Result<Option<ExitStatus>, S>,
    pub now: Duration,
}

impl<S> PathRound<S> {
    /// How a round ends the wait, if it does: a path that exists outweighs an
    /// exited process, and that outweighs the clock.
    pub open spec fn verdict(self, goal: PathGoal) -> Option<Result<(), Error<S>>> {
        if self.exists {
            Some(Ok(()))
        } else {
            match inspection(goal.program, self.polled) {
                Err(error) => Some(Err(error)),
                Ok(Some(status)) => Some(
                    Err(
                        Error::ProcessExitedBeforePath {
                            program: goal.program,
                            path: goal.path,
                            status,
                        },
                    ),
                ),
                Ok(None) => if self.now.total() >= goal.deadline {
                    Some(Err(Error::PathTimeout { program: goal.program, path: goal.path }))
                } else {
                    None
                },
            }
        }
    }

    pub open spec fn events(self) -> Seq<PathEvent<S>> {
        seq![
            PathEvent::PathChecked(self.exists),
            PathEvent::Polled(self.polled),
            PathEvent::Clock(self.now),
            PathEvent::Slept,
        ]
    }
}

/// The answers of several rounds, one round after the other.
pub open spec fn path_events<S>(rounds: Seq<PathRound<S>>) -> Seq<PathEvent<S>>
    decreases rounds.len(),
{
    if rounds.len() == 0 {
        seq![]
    } else {
        path_events(rounds.drop_last()) + rounds.last().events()
    }
}

proof fn lemma_path_run_round<S>(step: PathWait<S>, events: Seq<PathEvent<S>>, round: PathRound<S>)
    ensures
        step.run(events + round.events()) == step.run(events).next(
            PathEvent::PathChecked(round.exists),
        ).next(PathEvent::Polled(round.polled)).next(PathEvent::Clock(round.now)).next(
            PathEvent::Slept,
        ),
{
    reveal_with_fuel(PathWait::run, 5);
    let all = events + round.events();
    assert(all.drop_last().drop_last().drop_last().drop_last() =~= events);
}

/// A wait for a path goes on, and comes back to looking for the path, as long
/// as no round ends it.
pub proof fn path_wait_goes_on<S>(goal: PathGoal, rounds: Seq<PathRound<S>>)
    requires
        forall|i: int| 0 <= i < rounds.len() ==> (#[trigger] rounds[i]).verdict(goal) is None,
    ensures
        (PathWait::CheckPath { goal }).run(path_events(rounds)) == (PathWait::<S>::CheckPath {
            goal,
        }),
    decreases rounds.len(),
{
    if rounds.len() > 0 {
        let earlier = rounds.drop_last();
        assert forall|i: int| 0 <= i < earlier.len() implies (#[trigger] earlier[i]).verdict(
            goal,
        ) is None by {
            assert(earlier[i] == rounds[i]);
        }
        path_wait_goes_on(goal, earlier);
        lemma_path_run_round(PathWait::CheckPath { goal }, path_events(earlier), rounds.last());
        assert(rounds.last() == rounds[rounds.len() - 1]);
    }
}

/// A wait for a path ends with what the first round that ends it says, and no
/// later answer changes that.
pub proof fn path_wait_ends_with_first_verdict<S>(
    goal: PathGoal,
    rounds: Seq<PathRound<S>>,
    last: int,
)
    requires
        0 <= last < rounds.len(),
        forall|i: int| 0 <= i < last ==> (#[trigger] rounds[i]).verdict(goal) is None,
        rounds[last].verdict(goal) is Some,
    ensures
        (PathWait::CheckPath { goal }).run(path_events(rounds)) == (PathWait::Finished {
            result: rounds[last].verdict(goal)->0,
        }),
    decreases rounds.len(),
{
    let earlier = rounds.drop_last();
    if last == earlier.len() {
        assert forall|i: int| 0 <= i < earlier.len() implies (#[trigger] earlier[i]).verdict(
            goal,
        ) is None by {
            assert(earlier[i] == rounds[i]);
        }
        path_wait_goes_on(goal, earlier);
    } else {
        assert forall|i: int| 0 <= i < last implies (#[trigger] earlier[i]).verdict(
            goal,
        ) is None by {
            assert(earlier[i] == rounds[i]);
        }
        path_wait_ends_with_first_verdict(goal, earlier, last);
    }
    lemma_path_run_round(PathWait::CheckPath { goal }, path_events(earlier), rounds.last());
}

/// No round outlasts the deadline: one that reads the clock at or after it
/// ends the wait.
pub proof fn path_round_ends_at_deadline<S>(goal: PathGoal, round: PathRound<S>)
    requires
        round.now.total() >= goal.deadline,
    ensures
        round.verdict(goal) is Some,
{
}

/// What a wait for a path reports has been seen, whatever answers it was given:
/// success means that the path was there, a timeout that the clock had reached
/// the deadline, an exit that the process was found ended with that status.
pub proof fn path_wait_reports_what_was_seen<S>(goal: PathGoal, events: Seq<PathEvent<S>>) -> (at:
    int)
    requires
        (PathWait::CheckPath { goal }).run(events) is Finished,
    ensures
        0 <= at < events.len(),
        ({
            let before = (PathWait::CheckPath { goal }).run(events.take(at));
            let result = (PathWait::CheckPath { goal }).run(events)->result;
            &&& before.pursues(goal)
            &&& before.next(events[at]) == (PathWait::Finished { result })
            &&& result is Ok ==> events[at] == PathEvent::<S>::PathChecked(true)
            &&& result matches Err(error) ==> match error {
                Error::PathTimeout { program, path } => {
                    &&& program == goal.program
                    &&& path == goal.path
                    &&& events[at] is Clock
                    &&& events[at]->Clock_0.total() >= goal.deadline
                },
                Error::ProcessExitedBeforePath { program, path, status } => {
                    &&& program == goal.program
                    &&& path == goal.path
                    &&& events[at] == PathEvent::<S>::Polled(Ok(Some(status)))
                },
                Error::InspectProcess { program, source } => {
                    &&& program == goal.program
                    &&& events[at] == PathEvent::<S>::Polled(Err(source))
                },
                _ => false,
            }
        }),
    decreases events.len(),
{
    let start = PathWait::<S>::CheckPath { goal };
    let earlier = events.drop_last();
    if start.run(earlier) is Finished {
        let at = path_wait_reports_what_was_seen(goal, earlier);
        assert(earlier.take(at) =~= events.take(at));
        at
    } else {
        lemma_path_wait_pursues(goal, earlier);
        assert(events.take(events.len() - 1) =~= earlier);
        events.len() - 1
    }
}

proof fn lemma_path_wait_pursues<S>(goal: PathGoal, events: Seq<PathEvent<S>>)
    ensures
        ({
            let step = (PathWait::<S>::CheckPath { goal }).run(events);
            step is Finished || step.pursues(goal)
        }),
    decreases events.len(),
{
    if events.len() > 0 {
        lemma_path_wait_pursues(goal, events.drop_last());
    }
}

/// Whether none of `rounds` finds the path, the process runs in all of them, and
/// the clock has not come to the deadline in any.
pub open spec fn nothing_seen<S>(rounds: Seq<PathRound<S>>, deadline: u128) -> bool {
    forall|i: int|
        0 <= i < rounds.len() ==> {
            &&& !(#[trigger] rounds[i]).exists
            &&& rounds[i].polled == Ok::<Option<ExitStatus>, S>(None)
            &&& rounds[i].now.total() < deadline
        }
}

/// A wait for a path ends in the first round in which the path is there, or the
/// process has ended or cannot be polled, or the clock has come to the deadline,
/// and with what of these comes first: whatever the program, the path, the status
/// and the failure. Until then it goes on.
pub proof fn path_wait_comes_to_what_is_seen_first<S>(
    goal: PathGoal,
    rounds: Seq<PathRound<S>>,
    last: PathRound<S>,
)
    requires
        nothing_seen(rounds, goal.deadline),
    ensures
        ({
            let start = PathWait::<S>::CheckPath { goal };
            let end = start.run(path_events(rounds.push(last)));
            let failure = |error: Error<S>| PathWait::<S>::Finished { result: Err(error) };
            let PathGoal { program, path, deadline } = goal;
            &&& start.run(path_events(rounds)) == start
            &&& last.exists ==> end == (PathWait::<S>::Finished { result: Ok(()) })
            &&& !last.exists ==> match last.polled {
                Err(source) => end == failure(Error::InspectProcess { program, source }),
                Ok(Some(status)) => end == failure(
                    Error::ProcessExitedBeforePath { program, path, status },
                ),
                Ok(None) => if last.now.total() >= deadline {
                    end == failure(Error::PathTimeout { program, path })
                } else {
                    end == start
                },
            }
        }),
{
    let all = rounds.push(last);
    assert forall|i: int| 0 <= i < rounds.len() implies (#[trigger] all[i]).verdict(
        goal,
    ) is None && rounds[i].verdict(goal) is None by {
        assert(all[i] == rounds[i]);
        assert(rounds[i].polled == Ok::<Option<ExitStatus>, S>(None));
    }
    path_wait_goes_on(goal, rounds);
    assert(all[rounds.len() as int] == last);
    if last.verdict(goal) is Some {
        path_wait_ends_with_first_verdict(goal, all, rounds.len() as int);
    } else {
        path_wait_goes_on(goal, all);
    }
}

/// In each round the path is looked for first, then the process is polled, then
/// the clock is read, and after a tenth of a second the path is looked for again.
/// No other answer moves the wait.
pub proof fn only_answers_move_a_path_wait<S>(
    goal: PathGoal,
    events: Seq<PathEvent<S>>,
    event: PathEvent<S>,
)
    ensures
        ({
            let step = (PathWait::<S>::CheckPath { goal }).run(events);
            let after = step.next(event);
            &&& step matches PathWait::Sleep { millis, .. } ==> millis == 100
            &&& after is CheckPath ==> step is CheckPath || step is Sleep
            &&& after is Poll ==> step is Poll || step is CheckPath
            &&& after is CheckDeadline ==> step is CheckDeadline || step is Poll
            &&& after is Sleep ==> step is Sleep || step is CheckDeadline
            &&& after != step <==> match event {
                PathEvent::PathChecked(_) => step is CheckPath,
                PathEvent::Polled(_) => step is Poll,
                PathEvent::Clock(_) => step is CheckDeadline,
                PathEvent::Slept => step is Sleep,
            }
            &&& step is Finished || step.pursues(goal)
        }),
    decreases events.len(),
{
    lemma_path_wait_pursues(goal, events);
    if events.len() > 0 {
        only_answers_move_a_path_wait(goal, events.drop_last(), events.last());
    }
}

} // verus!
