//! The wall clock, read in whole seconds since the epoch.

use std::time::{Duration, SystemTime, SystemTimeError, UNIX_EPOCH};
use vstd::prelude::*;

verus! {

/// A reading of the system clock.
#[verifier::external_type_specification]
#[verifier::external_body]
pub struct ExSystemTime(SystemTime);

/// The failure of `SystemTime::duration_since`: the clock stood before the
/// instant it was compared with.
#[verifier::external_type_specification]
#[verifier::external_body]
pub struct ExSystemTimeError(SystemTimeError);

/// `SystemTime::now` reads the clock. Nothing is claimed of the reading.
pub assume_specification[ SystemTime::now ]() -> (reading: SystemTime)
;

/// `Duration::as_secs` gives the whole seconds of a duration. Nothing is
/// claimed of the number.
pub assume_specification[ Duration::as_secs ](duration: &Duration) -> (seconds: u64)
;

/// Calls `SystemTime::duration_since` with the epoch as the earlier instant.
/// Nothing is claimed of the outcome.
#[verifier::external_body]
fn since_epoch(reading: &SystemTime) -> (elapsed: Result<Duration, SystemTimeError>) {
    reading.duration_since(UNIX_EPOCH)
}

/// The present time in seconds since the epoch, or `None` where the clock
/// stands before the epoch. Two readings may differ in any way.
pub fn unix_time() -> (seconds: Option<u64>) {
    let reading = SystemTime::now();
    match since_epoch(&reading) {
        Ok(elapsed) => Some(elapsed.as_secs()),
        Err(_) => None,
    }
}

} // verus!
