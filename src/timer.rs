use vstd::prelude::*;

use std::time::{Duration, Instant};

verus! {

#[verifier::external_type_specification]
#[verifier::external_body]
pub struct ExInstant(std::time::Instant);

/// Relies on std's Instant::now: reads the monotonic clock; nothing is
/// promised of the value.
pub assume_specification[ std::time::Instant::now ]() -> std::time::Instant;

/// Relies on std's Instant::duration_since: the time elapsed from `earlier`
/// (zero if `earlier` is later); nothing is promised of the value.
pub assume_specification[ std::time::Instant::duration_since ](
    this: &std::time::Instant,
    earlier: std::time::Instant,
) -> core::time::Duration;

/// Relies on std's Duration::as_millis: whole milliseconds of a duration;
/// nothing is promised of the value.
pub assume_specification[ core::time::Duration::as_millis ](d: &core::time::Duration) -> u128;

/// A timer that measures the split time between successive calls.
pub struct Timer {
    time: Instant,
}

impl Timer {
    /// Build a new timer with the time value set as current time.
    pub fn new() -> Timer {
        Timer { time: Instant::now() }
    }

    /// Get the duration passed since the previous time call.
    pub fn time(&mut self) -> Duration {
        let now = Instant::now();
        let duration = now.duration_since(self.time);
        self.time = now;
        duration
    }
}

/// Whole milliseconds of `d`, saturated at `u64::MAX`.
pub fn millis(d: &Duration) -> (r: u64) {
    let ms = d.as_millis();
    if ms > u64::MAX as u128 {
        u64::MAX
    } else {
        ms as u64
    }
}

} // verus!
