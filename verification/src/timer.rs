//! Wall-clock timing for frame pacing and the elapsed-time uniform.
//!
//! Clock readings are environmental: no contract constrains the values
//! read, only the arithmetic done with them elsewhere.

use vstd::prelude::*;

verus! {

/// `std::time::Instant`, declared so a timer can hold one. The type is
/// opaque here: a value of it only identifies a point on the process's
/// monotonic clock.
#[verifier::external_type_specification]
#[verifier::external_body]
pub struct ExInstant(std::time::Instant);

/// Relies on std::time::Instant::now: an opaque reading of the
/// process's monotonic clock. Which instant comes back depends on when
/// the call runs, so nothing is promised of it.
pub assume_specification[ std::time::Instant::now ]() -> std::time::Instant;

/// Relies on std::time::Instant::elapsed: the duration between the
/// instant and a fresh clock reading. The value depends on the time of
/// the call, so nothing is promised of it.
pub assume_specification[ std::time::Instant::elapsed ](start: &std::time::Instant) -> core::time::Duration;

/// Relies on core::time::Duration::as_millis: the duration in whole
/// milliseconds. The duration is opaque here, so nothing more can be
/// stated.
pub assume_specification[ core::time::Duration::as_millis ](d: &core::time::Duration) -> u128;

/// Relies on core::time::Duration::as_micros: the duration in whole
/// microseconds. The duration is opaque here, so nothing more can be
/// stated.
pub assume_specification[ core::time::Duration::as_micros ](d: &core::time::Duration) -> u128;

/// A resettable stopwatch over the process's monotonic clock.
pub struct Timer {
    pub start_time: std::time::Instant,
}

impl Timer {
    /// A stopwatch running from now.
    pub fn new() -> Timer {
        Timer { start_time: std::time::Instant::now() }
    }

    /// Restarts the stopwatch at now.
    pub fn reset(&mut self) {
        self.start_time = std::time::Instant::now();
    }

    /// Whole milliseconds since the stopwatch last started. The value
    /// is a clock reading; no contract constrains it.
    pub fn get_elapsed_milis(&self) -> u128 {
        self.start_time.elapsed().as_millis()
    }

    /// Whole microseconds since the stopwatch last started, as the
    /// frame-pacing decision consumes them.
    pub fn get_elapsed_micros(&self) -> u128 {
        self.start_time.elapsed().as_micros()
    }
}

} // verus!
