//! Lengths of time and readings of a monotonic clock.

use vstd::prelude::*;

verus! {

pub const NANOS_PER_SEC: u128 = 1_000_000_000;

/// A length of time, or a clock reading taken as the time since a fixed origin.
#[derive(Clone, Copy, Debug, PartialEq, Eq)]
pub struct Duration {
    pub secs: u64,
    pub nanos: u32,
}

impl Duration {
    /// The length in nanoseconds.
    pub open spec fn total(self) -> nat {
        (self.secs * NANOS_PER_SEC + self.nanos) as nat
    }

    /// A length of whole seconds.
    pub open spec fn of_secs(secs: u64) -> Duration {
        Duration { secs, nanos: 0 }
    }

    pub fn from_secs(secs: u64) -> (duration: Duration)
        ensures
            duration == Duration::of_secs(secs),
    {
        Duration { secs, nanos: 0 }
    }

    pub fn total_nanos(self) -> (nanos: u128)
        ensures
            nanos == self.total(),
    {
        self.secs as u128 * NANOS_PER_SEC + self.nanos as u128
    }
}

/// The moment at which a wait that began at `now` has lasted `timeout`, in
/// nanoseconds on the clock that `now` was read from.
pub open spec fn deadline(now: Duration, timeout: Duration) -> u128 {
    (now.total() + timeout.total()) as u128
}

pub fn deadline_after(now: Duration, timeout: Duration) -> (moment: u128)
    ensures
        moment == deadline(now, timeout),
        moment == now.total() + timeout.total(),
{
    now.total_nanos() + timeout.total_nanos()
}

/// Whether the clock has come to `moment`.
pub fn has_reached(now: Duration, moment: u128) -> (reached: bool)
    ensures
        reached == (now.total() >= moment),
{
    now.total_nanos() >= moment
}

/// Lengths of time are counted in nanoseconds, of which a second has a thousand
/// million. A length of whole seconds has no nanoseconds besides.
pub proof fn lengths_are_counted_in_nanoseconds(length: Duration, secs: u64)
    ensures
        length.total() == 1_000_000_000 * length.secs + length.nanos,
        Duration::of_secs(secs).total() == 1_000_000_000 * secs,
        Duration::of_secs(secs).nanos == 0,
{
}

/// A deadline lies as many nanoseconds after the reading of the clock as the
/// timeout is long, for every reading and every timeout.
pub proof fn deadline_lies_the_timeout_later(now: Duration, timeout: Duration)
    ensures
        deadline(now, timeout) - (1_000_000_000 * now.secs + now.nanos) == 1_000_000_000
            * timeout.secs + timeout.nanos,
{
}

} // verus!
