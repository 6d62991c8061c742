//! Idle detection on the wall clock: whether the user has been idle for
//! longer than a threshold.

use vstd::prelude::*;
use chrono::Utc;

verus! {

/// A point in time: seconds since the Unix epoch and the nanoseconds beyond
/// them.
#[derive(Debug, Copy, Clone, PartialEq, Eq, Structural)]
pub struct Moment {
    pub secs: i64,
    pub nanos: u32,
}

impl Moment {
    /// The moment in nanoseconds since the epoch.
    pub open spec fn total_nanos(self) -> int {
        self.secs * 1_000_000_000 + self.nanos
    }
}

/// `Utc::now`, as `DateTime::timestamp` and
/// `DateTime::timestamp_subsec_nanos` give it: the current time of the
/// system clock. Nothing is promised of a clock reading.
#[verifier::external_body]
fn utc_now() -> Moment {
    let t = Utc::now();
    Moment { secs: t.timestamp(), nanos: t.timestamp_subsec_nanos() }
}

/// The time from `last` to `now` is longer than `threshold_ms` milliseconds.
pub open spec fn idle_longer_than(now: Moment, last: Moment, threshold_ms: u64) -> bool {
    now.total_nanos() - last.total_nanos() > threshold_ms * 1_000_000
}

/// Whether the time from `last` to `now` is longer than the threshold. A
/// `now` before `last` is no idle time at all.
pub fn idle_exceeds(now: Moment, last: Moment, threshold_ms: u64) -> (r: bool)
    ensures
        r == idle_longer_than(now, last, threshold_ms),
{
    let idle: i128 = (now.secs as i128 - last.secs as i128) * 1_000_000_000 + (now.nanos as i128
        - last.nanos as i128);
    idle > threshold_ms as i128 * 1_000_000
}

/// Tells whether the user has been idle for longer than a threshold.
pub struct PauseTimer {
    idle_threshold_ms: u64,
    last_activity: Moment,
}

impl PauseTimer {
    /// The idle time in milliseconds beyond which the user counts as paused.
    pub closed spec fn idle_threshold_ms(&self) -> u64 {
        self.idle_threshold_ms
    }

    /// When activity was last recorded.
    pub closed spec fn last_activity(&self) -> Moment {
        self.last_activity
    }

    /// A timer with the given threshold whose last activity is now.
    pub fn new(idle_threshold_ms: u64) -> (r: Self)
        ensures
            r.idle_threshold_ms() == idle_threshold_ms,
    {
        PauseTimer { idle_threshold_ms, last_activity: utc_now() }
    }

    /// Records activity at the current time; the threshold stays.
    pub fn record_activity(&mut self)
        ensures
            final(self).idle_threshold_ms() == old(self).idle_threshold_ms(),
    {
        self.last_activity = utc_now();
    }

    /// Whether the time since the last activity is longer than the
    /// threshold. What the clock reads decides: the answer is that of
    /// `idle_exceeds` for the moment the clock gives, whichever that is. The
    /// timer is not changed.
    pub fn is_paused(&self) -> (r: bool)
        ensures
            exists|now: Moment|
                r == #[trigger] idle_longer_than(
                    now,
                    self.last_activity(),
                    self.idle_threshold_ms(),
                ),
    {
        let now = utc_now();
        let r = idle_exceeds(now, self.last_activity, self.idle_threshold_ms);
        assert(r == idle_longer_than(now, self.last_activity(), self.idle_threshold_ms()));
        r
    }
}

} // verus!
