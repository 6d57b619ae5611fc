//! An independent delta time for systems that do not run on every Bevy update.
//!
//! The timer reads a monotonic clock as the time elapsed since the moment the
//! timer was made, in nanoseconds.  Each call of `delta` returns the time since
//! the previous call, and zero on the first call.
use vstd::prelude::*;
use std::time::{Duration, Instant};

verus! {

#[verifier::external_type_specification]
#[verifier::external_body]
pub struct ExInstant(Instant);

/// Calls `Instant::now`.  Nothing is stated of the result: it is the current
/// time of the machine's monotonic clock.
#[verifier::external_body]
fn clock_now() -> Instant {
    Instant::now()
}

/// Calls `Instant::elapsed`.  Nothing is stated of the result: it is the time
/// that passed since `origin`, as the clock reads now.
#[verifier::external_body]
fn clock_elapsed(origin: &Instant) -> Duration {
    origin.elapsed()
}

/// Calls `Duration::as_nanos`.  The result is the whole number of
/// nanoseconds in `d`; `Duration` has no model here, so that is left unsaid.
#[verifier::external_body]
fn duration_nanos(d: &Duration) -> u128 {
    d.as_nanos()
}

/// One call of the timer, from the reading of the previous call (if any) and
/// the clock reading of this call: the delta it returns, and the reading it
/// keeps.  The first call returns zero; a reading earlier than the previous
/// one (which a monotonic clock never gives) counts as no time.
pub open spec fn step(last: Option<u128>, now: u128) -> (u128, Option<u128>) {
    let delta: u128 = match last {
        None => 0,
        Some(prev) => if prev <= now { (now - prev) as u128 } else { 0 },
    };
    (delta, Some(now))
}

/// The sum of the deltas returned by calls that read the clock at
/// `readings`, in order, starting from the kept reading `last`.
pub open spec fn total_delta(last: Option<u128>, readings: Seq<u128>) -> int
    decreases readings.len(),
{
    if readings.len() == 0 {
        0
    } else {
        step(last, readings[0]).0 + total_delta(step(last, readings[0]).1, readings.drop_first())
    }
}

/// The readings never go back in time.
pub open spec fn non_decreasing(readings: Seq<u128>) -> bool {
    forall|i: int, j: int| 0 <= i <= j < readings.len() ==> readings[i] <= readings[j]
}

/// One call of the timer, given the clock reading of this call.
pub fn delta_step(last: Option<u128>, now: u128) -> (r: (u128, Option<u128>))
    ensures
        r == step(last, now),
{
    match last {
        None => (0, Some(now)),
        Some(prev) => if prev <= now { (now - prev, Some(now)) } else { (0, Some(now)) },
    }
}

/// A clock that returns the time passed since its previous invocation.
pub struct SystemDeltaTimer {
    origin: Instant,
    last_time: Option<u128>,
}

impl SystemDeltaTimer {
    /// The reading of the previous call of `delta`, in nanoseconds since the
    /// timer was made, if there was one.
    pub closed spec fn last_reading(self) -> Option<u128> {
        self.last_time
    }

    /// The moment the timer was made.
    pub closed spec fn origin(self) -> Instant {
        self.origin
    }

    /// Makes a timer that has not been invoked yet.
    pub fn new() -> (r: Self)
        ensures
            r.last_reading() is None,
    {
        SystemDeltaTimer { origin: clock_now(), last_time: None }
    }

    /// Returns the time passed since the last invocation, in nanoseconds, or
    /// zero on the first invocation.
    pub fn delta(&mut self) -> (r: u128)
        ensures
            final(self).origin() == old(self).origin(),
            final(self).last_reading() is Some,
            (r, final(self).last_reading()) == step(
                old(self).last_reading(),
                final(self).last_reading().unwrap(),
            ),
            old(self).last_reading() is None ==> r == 0,
    {
        let elapsed = clock_elapsed(&self.origin);
        let now = duration_nanos(&elapsed);
        let (delta, next) = delta_step(self.last_time, now);
        self.last_time = next;
        delta
    }
}

impl Default for SystemDeltaTimer {
    fn default() -> (r: Self)
        ensures
            r.last_reading() is None,
    {
        Self::new()
    }
}

/// The deltas of a run of calls add up to the time between the reading kept
/// before the run and the last reading of the run, so long as the clock never
/// goes back.
pub proof fn lemma_deltas_telescope_from(prev: u128, readings: Seq<u128>)
    requires
        readings.len() > 0,
        non_decreasing(readings),
        prev <= readings[0],
    ensures
        total_delta(Some(prev), readings) == readings.last() - prev,
    decreases readings.len(),
{
    let rest = readings.drop_first();
    assert(step(Some(prev), readings[0]) == ((readings[0] - prev) as u128, Some(readings[0])));
    if readings.len() == 1 {
        assert(total_delta(Some(readings[0]), rest) == 0);
    } else {
        assert forall|i: int, j: int| 0 <= i <= j < rest.len() implies rest[i] <= rest[j] by {
            assert(rest[i] == readings[i + 1] && rest[j] == readings[j + 1]);
        }
        assert(readings[0] <= readings[1]);
        lemma_deltas_telescope_from(readings[0], rest);
        assert(rest.last() == readings.last());
    }
}

/// The deltas of the calls of a fresh timer add up to the time between its
/// first and its last invocation, so long as the clock never goes back; the
/// first call returns zero.
pub proof fn lemma_deltas_telescope(readings: Seq<u128>)
    requires
        readings.len() > 0,
        non_decreasing(readings),
    ensures
        step(None, readings[0]).0 == 0,
        total_delta(None, readings) == readings.last() - readings[0],
{
    let rest = readings.drop_first();
    if readings.len() == 1 {
        assert(total_delta(Some(readings[0]), rest) == 0);
    } else {
        assert forall|i: int, j: int| 0 <= i <= j < rest.len() implies rest[i] <= rest[j] by {
            assert(rest[i] == readings[i + 1] && rest[j] == readings[j + 1]);
        }
        assert(readings[0] <= readings[1]);
        lemma_deltas_telescope_from(readings[0], rest);
        assert(rest.last() == readings.last());
    }
}

/// Each call keeps its own reading, so the next call measures from it: two
/// calls that read the clock at `a` and then `b >= a` return zero (if the
/// first is the first call) and `b - a`.
pub proof fn lemma_consecutive_calls(last: Option<u128>, a: u128, b: u128)
    requires
        a <= b,
    ensures
        step(last, a).1 == Some(a),
        step(step(last, a).1, b).0 == b - a,
{
}

} // verus!
