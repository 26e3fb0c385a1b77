//! Wall-clock readings. Time is outside work: these trusted readings
//! hand the rest of the library plain integers, and every computation on
//! them is verified against the value passed in.

use vstd::prelude::*;
use crate::resources::ts_ok;

verus! {

/// Relies on `chrono::Utc::now` and `DateTime::timestamp`: the current
/// wall-clock time in whole seconds since the Unix epoch. chrono bounds
/// its dates to about ±262,000 years, so every reading lies within
/// [`ts_ok`].
#[verifier::external_body]
pub fn now_unix_seconds() -> (r: i64)
    ensures
        ts_ok(r as int),
{
    chrono::Utc::now().timestamp()
}

/// Relies on `chrono::Utc::now` and `DateTime::timestamp_millis`: the
/// current wall-clock time in whole milliseconds since the Unix epoch,
/// within chrono's ±262,000-year date bounds.
#[verifier::external_body]
pub fn now_unix_millis_signed() -> (r: i64)
    ensures
        -0x2000_0000_0000_0000 <= r <= 0x2000_0000_0000_0000,
{
    chrono::Utc::now().timestamp_millis()
}

/// A millisecond reading as the notification queue counts it: clock
/// readings before the epoch read as zero.
pub fn clamp_millis(ms: i64) -> (r: u64)
    ensures
        ms >= 0 ==> r == ms,
        ms < 0 ==> r == 0,
{
    if ms >= 0 {
        ms as u64
    } else {
        0
    }
}

/// The current wall-clock time in whole milliseconds, for notification
/// timestamps; never negative.
pub fn now_unix_millis() -> (r: u64)
    ensures
        r <= 0x2000_0000_0000_0000,
{
    clamp_millis(now_unix_millis_signed())
}

} // verus!
