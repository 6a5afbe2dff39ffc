//! The time of day, as far as the library needs it.

use std::time::{Duration, SystemTime};
use vstd::prelude::*;

verus! {

/// The standard library's `SystemTime`: a value of it is carried from one
/// call to the next and never looked into.
#[verifier::external_type_specification]
#[verifier::external_body]
pub struct ExSystemTime(std::time::SystemTime);

/// Calls `std::time::SystemTime::now`.
///
/// Trusted: nothing is claimed of the time that comes back.
#[verifier::external_body]
pub(crate) fn system_time_now() -> SystemTime {
    SystemTime::now()
}

/// Calls `SystemTime::duration_since` with `UNIX_EPOCH`.
///
/// Trusted: nothing is claimed of the result. It is `None` where the time
/// lies before the epoch.
#[verifier::external_body]
pub(crate) fn since_unix_epoch(time: &SystemTime) -> Option<Duration> {
    time.duration_since(std::time::UNIX_EPOCH).ok()
}

/// Calls `Duration::as_millis`.
///
/// Trusted: nothing is claimed of the result.
#[verifier::external_body]
pub(crate) fn whole_millis(elapsed: &Duration) -> u128 {
    elapsed.as_millis()
}

/// The milliseconds `elapsed` as a timestamp: their low 64 bits, and zero
/// where there are none.
pub fn millis_or_zero(elapsed: Option<u128>) -> (stamp: u64)
    ensures
        stamp == match elapsed {
            Some(millis) => millis % 0x1_0000_0000_0000_0000,
            None => 0,
        },
{
    match elapsed {
        Some(millis) => (millis % 0x1_0000_0000_0000_0000) as u64,
        None => 0,
    }
}

/// The milliseconds since the Unix epoch by the system's clock, or zero
/// where the clock stands before the epoch.
pub fn timestamp_millis() -> u64 {
    let now = system_time_now();
    match since_unix_epoch(&now) {
        Some(elapsed) => millis_or_zero(Some(whole_millis(&elapsed))),
        None => millis_or_zero(None),
    }
}

} // verus!
