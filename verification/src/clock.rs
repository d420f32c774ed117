//! The wall clock.
use vstd::prelude::*;

verus! {

/// Seconds since the Unix epoch, as chrono's `Utc::now().timestamp()` reports them.
/// The clock's reading is not predictable, so nothing is stated of the result.
#[verifier::external_body]
pub(crate) fn unix_time_secs() -> i64 {
    chrono::Utc::now().timestamp()
}

/// Whether `t` is a time that a reading of the clock gave: a possible result of
/// `unix_time_secs`. Nothing else is known of such times, so a value that no reading gave (a
/// constant put in its place) cannot be shown to be one.
pub closed spec fn clock_reading(t: i64) -> bool {
    call_ensures(unix_time_secs, (), t)
}

/// The seconds since the Unix epoch that a clock reading `t` stands for, as an unsigned count:
/// a reading before the epoch counts as 0.
pub open spec fn epoch_secs(t: i64) -> u64 {
    if t < 0 { 0 } else { t as u64 }
}

/// Reads the clock: seconds since the Unix epoch, a clock reading.
pub(crate) fn read_clock() -> (t: i64)
    ensures
        clock_reading(t),
{
    unix_time_secs()
}

} // verus!
