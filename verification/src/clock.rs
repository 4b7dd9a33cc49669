//! Points in time, in whole seconds since the Unix epoch.

use vstd::prelude::*;

verus! {

/// `std::time::SystemTime`, a reading of the system clock. Verified code
/// carries it from one function below to the next.
#[verifier::external_type_specification]
#[verifier::external_body]
pub struct ExSystemTime(std::time::SystemTime);

/// `SystemTime::now`: the reading of the system clock. Nothing is claimed of
/// it: two readings may differ, and a clock may be set to any time.
#[verifier::external_body]
fn system_now() -> std::time::SystemTime {
    std::time::SystemTime::now()
}

/// `SystemTime::duration_since` with the Unix epoch as the earlier point: the
/// time passed since the epoch, or `None` where `std` reports that the reading
/// lies before it.
#[verifier::external_body]
fn since_unix_epoch(reading: &std::time::SystemTime) -> Option<std::time::Duration> {
    reading.duration_since(std::time::UNIX_EPOCH).ok()
}

/// `Duration::as_secs`: the whole seconds of a duration.
#[verifier::external_body]
fn whole_seconds(passed: &std::time::Duration) -> u64 {
    passed.as_secs()
}

/// The point in time `offset_seconds` after `now` (before it, for a negative
/// offset), where that point lies neither before the epoch nor beyond `u64`.
pub open spec fn shifted(now: u64, offset_seconds: i64) -> Option<u64> {
    if 0 <= now + offset_seconds <= u64::MAX {
        Some((now + offset_seconds) as u64)
    } else {
        None
    }
}

/// Moves a point in time by an offset, forwards or backwards.
pub fn timestamp_plus_offset(now: u64, offset_seconds: i64) -> (r: Option<u64>)
    ensures
        r == shifted(now, offset_seconds),
{
    now.checked_add_signed(offset_seconds)
}

/// The present time by the system clock, moved by `offset_seconds`.
///
/// `None` where the clock stands before the epoch or the moved time cannot be
/// told in seconds since the epoch. Whatever the clock says, a time handed
/// back is some time moved by `offset_seconds`.
pub fn get_unix_timestamp_plus_offset(offset_seconds: i64) -> (r: Option<u64>)
    ensures
        r matches Some(t) ==> exists|now: u64| shifted(now, offset_seconds) == Some(t),
{
    let reading = system_now();
    match since_unix_epoch(&reading) {
        Some(passed) => {
            let now = whole_seconds(&passed);
            timestamp_plus_offset(now, offset_seconds)
        },
        None => None,
    }
}

} // verus!
