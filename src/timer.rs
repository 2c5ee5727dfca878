use vstd::prelude::*;
use std::time::{Duration, Instant};

verus! {

#[verifier::external_type_specification]
#[verifier::external_body]
pub struct ExInstant(Instant);

/// Relies on Instant::now: the current reading of the monotonic clock.
#[verifier::external_body]
fn clock_now() -> (r: Instant) {
    Instant::now()
}

/// Relies on Instant::elapsed: the time since `start`.
#[verifier::external_body]
fn clock_elapsed(start: &Instant) -> (r: Duration) {
    start.elapsed()
}

/// Measures how long an operation takes.
pub struct MetricsTimer {
    start: Instant,
}

impl MetricsTimer {
    /// Starts a timer now.
    pub fn start() -> (r: MetricsTimer) {
        MetricsTimer { start: clock_now() }
    }

    /// Stops the timer and returns the time since it started.
    pub fn stop(self) -> (r: Duration) {
        clock_elapsed(&self.start)
    }
}

} // verus!
