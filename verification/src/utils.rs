//! The clock.

use std::time::{Duration, SystemTime};
use vstd::prelude::*;

verus! {

/// A reading of the system clock. Nothing of it is known to the proofs.
#[verifier::external_type_specification]
#[verifier::external_body]
pub struct ExSystemTime(std::time::SystemTime);

/// Reads the system clock (`std::time::SystemTime::now`). The reading
/// depends on the moment of the call, so nothing is promised about it.
#[verifier::external_body]
fn read_clock() -> SystemTime {
    SystemTime::now()
}

/// The time from the Unix epoch to `reading`
/// (`std::time::SystemTime::duration_since`, measured from `UNIX_EPOCH`);
/// none where the reading lies before the epoch.
#[verifier::external_body]
fn since_epoch(reading: &SystemTime) -> Option<Duration> {
    reading.duration_since(std::time::UNIX_EPOCH).ok()
}

/// The whole seconds in `span` (`std::time::Duration::as_secs`).
#[verifier::external_body]
fn whole_seconds(span: &Duration) -> u64 {
    span.as_secs()
}

/// The time in whole seconds since the Unix epoch, as the system clock tells
/// it; `None` on a clock that stands before the epoch.
///
/// The value depends on the moment of the call: two calls may differ, and a
/// clock that is set back makes the later call give less.
pub fn now_secs() -> Option<u64> {
    match since_epoch(&read_clock()) {
        Some(span) => Some(whole_seconds(&span)),
        None => None,
    }
}

} // verus!
