//! Clock helpers shared by the services.

use vstd::prelude::*;

verus! {

/// Reads the system clock: `std::time::SystemTime::now()` measured against
/// `UNIX_EPOCH`, in whole milliseconds, or `None` when the clock reads earlier
/// than the epoch. Nothing is claimed about the value: it is the wall clock.
#[verifier::external_body]
fn system_clock_millis() -> (ms: Option<u128>) {
    std::time::SystemTime::now().duration_since(std::time::UNIX_EPOCH).ok().map(|d| d.as_millis())
}

/// The timestamp stored for a clock reading: the reading truncated to `i64`
/// (as the `as i64` conversion does), or 0 when the clock is before the epoch.
pub open spec fn timestamp_of(ms: Option<u128>) -> i64 {
    match ms {
        Some(m) => m as i64,
        None => 0,
    }
}

/// Converts a clock reading into a 13-digit Unix millisecond timestamp.
pub fn millis_to_timestamp(ms: Option<u128>) -> (t: i64)
    ensures
        t == timestamp_of(ms),
{
    match ms {
        Some(m) => m as i64,
        None => 0,
    }
}

/// Current time as a 13-digit Unix millisecond timestamp.
pub fn now_ms() -> (t: i64)
    ensures
        exists|ms: Option<u128>| t == timestamp_of(ms),
{
    let ms = system_clock_millis();
    millis_to_timestamp(ms)
}

} // verus!
