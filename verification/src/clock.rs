//! The wall clock, read through std.
use vstd::prelude::*;
use std::time::{Duration, SystemTime};

verus! {

/// `std::time::SystemTime`, carried through opaque.
#[verifier::external_type_specification]
#[verifier::external_body]
pub struct ExSystemTime(SystemTime);

/// `SystemTime::now`: the current time. Nothing is claimed of the value: it is the clock's.
#[verifier::external_body]
fn system_time_now() -> SystemTime {
    SystemTime::now()
}

/// `SystemTime::duration_since(UNIX_EPOCH)`, `None` when the clock reads before the epoch.
/// Nothing is claimed of the result: it follows from the clock's reading.
#[verifier::external_body]
fn duration_since_epoch(t: &SystemTime) -> Option<Duration> {
    t.duration_since(std::time::UNIX_EPOCH).ok()
}

/// `Duration::as_millis`: the whole milliseconds of a duration. Nothing is claimed of
/// the result here; it only ever measures a reading of the clock.
#[verifier::external_body]
fn duration_millis(d: &Duration) -> u128 {
    d.as_millis()
}

/// Milliseconds since the Unix epoch, or `None` when the clock reads before it.
pub fn now_millis() -> (r: Option<u128>) {
    let now = system_time_now();
    match duration_since_epoch(&now) {
        Some(d) => Some(duration_millis(&d)),
        None => None,
    }
}

} // verus!
