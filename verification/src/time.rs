//! The wall clock and latency durations.
//!
//! Every time-dependent operation of the model has an `*_at` form that
//! takes the current timestamp as an argument and carries the exact
//! contract; the clock itself is read here, at the trusted boundary, and
//! nothing is assumed of the value it returns.

use vstd::prelude::*;

verus! {

/// Milliseconds since the Unix epoch, read from the wall clock.
///
/// Relies on `std::time::SystemTime::now` and
/// `SystemTime::duration_since(UNIX_EPOCH)`, taking the duration as whole
/// milliseconds; a clock reading from before the epoch counts as zero.
/// The value depends on the clock, so nothing is promised of it.
#[verifier::external_body]
pub fn current_timestamp_ms() -> u64 {
    match std::time::SystemTime::now().duration_since(std::time::UNIX_EPOCH) {
        Ok(d) => d.as_millis() as u64,
        Err(_) => 0,
    }
}

/// The duration of the given number of microseconds.
pub uninterp spec fn duration_from_micros_spec(micros: u64) -> core::time::Duration;

/// The duration of the given number of milliseconds.
pub uninterp spec fn duration_from_millis_spec(millis: u64) -> core::time::Duration;

/// Relies on `core::time::Duration::from_micros`: the duration of the
/// given number of microseconds, a pure function of its argument.
pub assume_specification [ core::time::Duration::from_micros ](micros: u64) -> (r:
    core::time::Duration)
    ensures
        r == duration_from_micros_spec(micros),
;

/// Relies on `core::time::Duration::from_millis`: the duration of the
/// given number of milliseconds, a pure function of its argument.
pub assume_specification [ core::time::Duration::from_millis ](millis: u64) -> (r:
    core::time::Duration)
    ensures
        r == duration_from_millis_spec(millis),
;

} // verus!
