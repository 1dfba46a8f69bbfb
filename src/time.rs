//! Clock readings.
use vstd::prelude::*;
use std::time::Duration;

verus! {

/// Relies on `std::time::SystemTime::now` and `duration_since(UNIX_EPOCH)`:
/// the wall-clock time in microseconds since the Unix epoch, or 0 when the
/// clock reads before the epoch. Nothing is promised of the value.
#[verifier::external_body]
pub fn unix_time_micros() -> (r: u64) {
    match std::time::SystemTime::now().duration_since(std::time::UNIX_EPOCH) {
        Ok(d) => d.as_micros() as u64,
        Err(_) => 0,
    }
}

/// The wall-clock time in whole seconds since the Unix epoch.
pub fn unix_time_secs() -> (r: u64) {
    unix_time_micros() / 1_000_000
}

/// Relies on `Duration::from_millis`: a duration of `ms` milliseconds.
#[verifier::external_body]
pub fn duration_from_millis(ms: u64) -> (r: Duration) {
    Duration::from_millis(ms)
}

} // verus!
