//! Sweep scheduling: whether the user has paused long enough for a sweep.

use vstd::prelude::*;
use std::time::Instant;

verus! {

#[verifier::external_type_specification]
#[verifier::external_body]
pub struct ExInstant(Instant);

/// `Instant::now`: the current reading of the monotonic clock.
#[verifier::external_body]
fn clock_now() -> Instant {
    Instant::now()
}

/// `Instant::elapsed`, in whole milliseconds: the time that has passed since
/// `since` was taken. It depends on the clock, so nothing is promised of it.
#[verifier::external_body]
fn elapsed_ms(since: &Instant) -> u128 {
    since.elapsed().as_millis()
}

/// Whether `elapsed_ms` of idle time reach the pause threshold.
pub open spec fn pause_reached(elapsed_ms: u128, threshold_ms: u64) -> bool {
    elapsed_ms >= threshold_ms
}

/// Whether a sweep cycle does work: only an active scheduler whose user has
/// not paused.
pub open spec fn sweep_runs(is_active: bool, paused: bool) -> bool {
    is_active && !paused
}

/// Whether `elapsed_ms` of idle time reach the pause threshold.
pub fn is_pause(elapsed_ms: u128, threshold_ms: u64) -> (r: bool)
    ensures
        r == pause_reached(elapsed_ms, threshold_ms),
{
    elapsed_ms >= threshold_ms as u128
}

/// Whether a sweep cycle does work, given whether the user has paused.
pub fn sweep_decision(is_active: bool, paused: bool) -> (r: bool)
    ensures
        r == sweep_runs(is_active, paused),
{
    is_active && !paused
}

/// Sweep scheduler for coordinating pipeline operations.
pub struct SweepScheduler {
    /// When activity was last recorded.
    pub last_activity: Instant,
    /// Idle time in milliseconds from which the user counts as paused.
    pub pause_threshold_ms: u64,
    /// Whether the scheduler is active.
    pub is_active: bool,
}

impl SweepScheduler {
    /// An inactive scheduler whose last activity is now.
    pub fn new(pause_threshold_ms: u64) -> (r: Self)
        ensures
            r.pause_threshold_ms == pause_threshold_ms,
            !r.is_active,
    {
        SweepScheduler { last_activity: clock_now(), pause_threshold_ms, is_active: false }
    }

    /// Records user activity at the current time.
    pub fn record_activity(&mut self)
        ensures
            final(self).pause_threshold_ms == old(self).pause_threshold_ms,
            final(self).is_active == old(self).is_active,
    {
        self.last_activity = clock_now();
    }

    /// Whether the time since the last activity has reached the threshold.
    /// With a threshold of zero the user always counts as paused.
    pub fn is_paused(&self) -> (r: bool)
        ensures
            self.pause_threshold_ms == 0 ==> r,
    {
        is_pause(elapsed_ms(&self.last_activity), self.pause_threshold_ms)
    }

    /// Activates the scheduler and records activity.
    pub fn start(&mut self)
        ensures
            final(self).is_active,
            final(self).pause_threshold_ms == old(self).pause_threshold_ms,
    {
        self.is_active = true;
        self.record_activity();
    }

    /// Deactivates the scheduler; nothing else changes.
    pub fn stop(&mut self)
        ensures
            !final(self).is_active,
            final(self).pause_threshold_ms == old(self).pause_threshold_ms,
            final(self).last_activity == old(self).last_activity,
    {
        self.is_active = false;
    }

    /// Runs one sweep cycle and returns whether it did work. An inactive
    /// scheduler never does, nor one with a threshold of zero. The scheduler
    /// is left as it was.
    pub fn tick(&mut self) -> (r: bool)
        ensures
            *final(self) == *old(self),
            !old(self).is_active ==> !r,
            old(self).pause_threshold_ms == 0 ==> !r,
    {
        if !self.is_active {
            return false;
        }
        sweep_decision(self.is_active, self.is_paused())
    }
}

impl Default for SweepScheduler {
    fn default() -> (r: Self)
        ensures
            r.pause_threshold_ms == 500,
            !r.is_active,
    {
        SweepScheduler::new(500)
    }
}

} // verus!
