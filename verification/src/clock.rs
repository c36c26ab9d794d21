//! The wall clock, read through `chrono`.

use vstd::prelude::*;

verus! {

/// Reads the wall clock: the value of `chrono::Utc::now().timestamp_millis()`,
/// milliseconds since the Unix epoch. Nothing is claimed of the value; two
/// reads may differ in either direction. `chrono` gives up where the system
/// clock is set before the epoch.
#[verifier::external_body]
fn utc_timestamp_millis() -> (ms: i64) {
    chrono::Utc::now().timestamp_millis()
}

/// A clock reading as an unsigned count: readings before the epoch count as
/// zero.
pub open spec fn millis_of_reading(ms: i64) -> u64 {
    if ms < 0 {
        0
    } else {
        ms as u64
    }
}

/// Turns a clock reading into an unsigned count of milliseconds.
pub fn millis_from_reading(ms: i64) -> (r: u64)
    ensures
        r == millis_of_reading(ms),
{
    if ms < 0 {
        0
    } else {
        ms as u64
    }
}

/// The current time in milliseconds since the Unix epoch.
pub fn now_millis() -> (r: u64)
    ensures
        r <= i64::MAX,
{
    millis_from_reading(utc_timestamp_millis())
}

} // verus!
