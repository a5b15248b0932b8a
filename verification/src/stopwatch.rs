//! A simple stopwatch over the system's monotonic clock.
//!
//! What the clock returns depends on the machine and the moment, so
//! the contracts here promise nothing about the measured values; the
//! arithmetic on them is verified.

use vstd::prelude::*;

use std::time::{Duration, Instant};

verus! {

#[verifier::external_type_specification]
#[verifier::external_body]
pub struct ExInstant(Instant);

/// Relies on `std::time::Instant::now`: a reading of the monotonic
/// clock.  The result depends on the moment, so nothing is promised
/// of it.
#[verifier::external_body]
fn instant_now() -> Instant {
    Instant::now()
}

/// Relies on `std::time::Instant::elapsed`: the time since the
/// reading was taken.  The result depends on the moment, so nothing
/// is promised of it.
#[verifier::external_body]
fn instant_elapsed(start: &Instant) -> Duration {
    start.elapsed()
}

/// Relies on `std::time::Duration::as_millis`: the documentation says
/// it returns the total number of whole milliseconds in the duration.
/// The duration's value itself is opaque here, so nothing more is
/// stated.
#[verifier::external_body]
fn duration_as_millis(d: &Duration) -> u128 {
    d.as_millis()
}

/// Simple stopwatch.
pub struct Stopwatch {
    start: Instant,
}

impl Stopwatch {
    /// Starts a new stopwatch at the current instant.
    pub fn start() -> Stopwatch {
        Stopwatch { start: instant_now() }
    }

    /// The time elapsed since the stopwatch was started.
    pub fn elapsed(&self) -> Duration {
        instant_elapsed(&self.start)
    }

    /// The time elapsed since the stopwatch was started, in whole
    /// milliseconds, saturated at the largest representable count.
    pub fn elapsed_ms(&self) -> u64 {
        let d = self.elapsed();
        let ms = duration_as_millis(&d);
        if ms > u64::MAX as u128 {
            u64::MAX
        } else {
            ms as u64
        }
    }
}

} // verus!
