//! A rate governor for a tight loop.
//!
//! The governor never reads a clock and never waits. The caller polls it with
//! readings of a monotonic clock, in nanoseconds since an origin of its choice,
//! and spins until a poll completes:
//!
//! ```text
//! while !limiter.check(clock_nanos()) {}
//! ```
//!
//! Spinning rather than sleeping is meant: the intervals this is used with lie
//! far below what a sleep can resolve.

use vstd::prelude::*;

verus! {

/// The pacing rule a governor enforces, as mathematics: the time of the last
/// completed check and the least time that must pass before the next one.
pub struct Pace {
    pub last: nat,
    pub interval: nat,
}

impl Pace {
    /// Time passed since the last completed check. A reading that lies before
    /// it counts as no time passed.
    pub open spec fn elapsed(self, now: nat) -> nat {
        if now >= self.last {
            (now - self.last) as nat
        } else {
            0
        }
    }

    /// Whether a check made at `now` completes.
    pub open spec fn due(self, now: nat) -> bool {
        self.elapsed(now) >= self.interval
    }

    /// The rule after one check at `now`: a check that completes records `now`,
    /// one that does not changes nothing.
    pub open spec fn step(self, now: nat) -> Pace {
        if self.due(now) {
            Pace { last: now, interval: self.interval }
        } else {
            self
        }
    }

    /// The rule after one check at each of `times`, in order.
    pub open spec fn run(self, times: Seq<nat>) -> Pace
        decreases times.len(),
    {
        if times.len() == 0 {
            self
        } else {
            self.run(times.drop_last()).step(times.last())
        }
    }

    /// Whether, of the checks made at each of `times` in order, the one at
    /// index `k` completes.
    pub open spec fn completes(self, times: Seq<nat>, k: int) -> bool {
        self.run(times.take(k)).due(times[k])
    }
}

/// Whether a check at `now` completes under an optional pacing rule. Without a
/// rule every check completes.
pub open spec fn passes(pace: Option<Pace>, now: nat) -> bool {
    match pace {
        Some(p) => p.due(now),
        None => true,
    }
}

/// An optional pacing rule after one check at `now`.
pub open spec fn paced(pace: Option<Pace>, now: nat) -> Option<Pace> {
    match pace {
        Some(p) => Some(p.step(now)),
        None => None,
    }
}

/// Blocks a loop from running faster than a configured rate.
pub struct LoopLimiter {
    last: u128,
    min_loop_time: u128,
}

impl View for LoopLimiter {
    type V = Pace;

    closed spec fn view(&self) -> Pace {
        Pace { last: self.last as nat, interval: self.min_loop_time as nat }
    }
}

impl LoopLimiter {
    /// A governor that lets `min_loop_time` nanoseconds pass between two
    /// completed checks, created at clock reading `now`. The first check
    /// completes no sooner than `min_loop_time` after `now`.
    pub fn new(min_loop_time: u128, now: u128) -> (limiter: Self)
        ensures
            limiter@ == (Pace { last: now as nat, interval: min_loop_time as nat }),
    {
        LoopLimiter { last: now, min_loop_time }
    }

    /// The clock reading of the last completed check, or of the creation if
    /// none has completed.
    pub fn last(&self) -> (t: u128)
        ensures
            t == self@.last,
    {
        self.last
    }

    /// The least number of nanoseconds between two completed checks.
    pub fn min_loop_time(&self) -> (d: u128)
        ensures
            d == self@.interval,
    {
        self.min_loop_time
    }
}

/// Something a loop polls once per spin to learn whether it may go on.
pub trait Checkable {
    /// The pacing rule in force, if there is one.
    spec fn pace(&self) -> Option<Pace>;

    /// Polls at clock reading `now`. Returns `true` when the caller may go on.
    /// On `false` nothing has changed and the caller polls again with a fresh
    /// reading.
    fn check(&mut self, now: u128) -> (done: bool)
        ensures
            done == passes(old(self).pace(), now as nat),
            final(self).pace() == paced(old(self).pace(), now as nat),
    ;
}

impl Checkable for LoopLimiter {
    open spec fn pace(&self) -> Option<Pace> {
        Some(self@)
    }

    fn check(&mut self, now: u128) -> (done: bool)
        ensures
            done == old(self)@.due(now as nat),
            final(self)@ == old(self)@.step(now as nat),
    {
        if now.saturating_sub(self.last) >= self.min_loop_time {
            self.last = now;
            true
        } else {
            false
        }
    }
}

/// A governor that may be absent. An absent one lets every check complete.
impl<T: Checkable> Checkable for Option<T> {
    open spec fn pace(&self) -> Option<Pace> {
        match self {
            Some(inner) => inner.pace(),
            None => None,
        }
    }

    fn check(&mut self, now: u128) -> (done: bool) {
        match self {
            Some(inner) => inner.check(now),
            None => true,
        }
    }
}

/// Checks never change the minimum interval.
pub proof fn lemma_run_keeps_interval(p: Pace, times: Seq<nat>)
    ensures
        p.run(times).interval == p.interval,
    decreases times.len(),
{
    if times.len() > 0 {
        lemma_run_keeps_interval(p, times.drop_last());
    }
}

/// Whether the readings in `times` never go down.
pub open spec fn non_decreasing(times: Seq<nat>) -> bool {
    forall|a: int, b: int| 0 <= a <= b < times.len() ==> times[a] <= times[b]
}

/// Once the check at index `i` has completed, the recorded time never falls
/// below `times[i]`.
proof fn lemma_last_after_completion(p: Pace, times: Seq<nat>, i: int, k: int)
    requires
        p.interval > 0 || non_decreasing(times),
        0 <= i < k <= times.len(),
        p.completes(times, i),
    ensures
        p.run(times.take(k)).last >= times[i],
    decreases k,
{
    let prefix = times.take(k);
    assert(prefix.drop_last() == times.take(k - 1));
    assert(prefix.last() == times[k - 1]);
    if k - 1 > i {
        lemma_last_after_completion(p, times, i, k - 1);
        lemma_run_keeps_interval(p, times.take(k - 1));
    }
}

/// Any two completed checks lie at least the minimum interval apart, whatever
/// readings the governor was polled with in between. With a minimum interval
/// of zero this asks that the clock never runs backwards; with any other it
/// holds of every sequence of readings.
pub proof fn lemma_completed_checks_are_spaced(p: Pace, times: Seq<nat>, i: int, j: int)
    requires
        p.interval > 0 || non_decreasing(times),
        0 <= i < j < times.len(),
        p.completes(times, i),
        p.completes(times, j),
    ensures
        times[j] - times[i] >= p.interval,
{
    lemma_last_after_completion(p, times, i, j);
    lemma_run_keeps_interval(p, times.take(j));
}

/// Checks that do not complete leave the rule as it was.
pub proof fn lemma_failed_checks_change_nothing(p: Pace, times: Seq<nat>, k: int)
    requires
        0 <= k <= times.len(),
        forall|m: int| 0 <= m < k ==> !p.completes(times, m),
    ensures
        p.run(times.take(k)) == p,
    decreases k,
{
    let prefix = times.take(k);
    if k > 0 {
        assert(prefix.drop_last() == times.take(k - 1));
        assert(prefix.last() == times[k - 1]);
        lemma_failed_checks_change_nothing(p, times, k - 1);
        assert(!p.completes(times, k - 1));
    }
}

/// The first completed check lies at least the minimum interval after the
/// governor's creation. With a minimum interval of zero this asks that the
/// reading does not lie before the creation.
pub proof fn lemma_first_check_waits(p: Pace, times: Seq<nat>, j: int)
    requires
        p.interval > 0 || p.last <= times[j],
        0 <= j < times.len(),
        forall|k: int| 0 <= k < j ==> !p.completes(times, k),
        p.completes(times, j),
    ensures
        times[j] - p.last >= p.interval,
{
    lemma_failed_checks_change_nothing(p, times, j);
}

} // verus!
