//! The system clock.

use std::time::{SystemTime, UNIX_EPOCH};
use vstd::prelude::*;

verus! {

/// A moment of the system clock.
#[verifier::external_type_specification]
#[verifier::external_body]
pub struct ExSystemTime(SystemTime);

/// `SystemTime::now`: the moment that the system clock shows. Which one it is depends on the
/// machine, and nothing is said of it.
pub assume_specification[ SystemTime::now ]() -> SystemTime
;

/// Calls `SystemTime::duration_since` for a moment and the Unix epoch, and hands back the whole
/// seconds, or `None` for a moment before the epoch. A moment is opaque, so nothing is said of how
/// many seconds there are.
#[verifier::external_body]
pub(crate) fn seconds_since_epoch(moment: SystemTime) -> Option<u64> {
    moment.duration_since(UNIX_EPOCH).ok().map(|elapsed| elapsed.as_secs())
}

/// Whether the system clock was read, and gave this many whole seconds since the Unix epoch, or
/// `None` if it was set before the epoch.
pub closed spec fn is_clock_reading(reading: Option<u64>) -> bool {
    exists|moment: SystemTime|
        {
            &&& call_ensures(SystemTime::now, (), moment)
            &&& #[trigger] call_ensures(seconds_since_epoch, (moment,), reading)
        }
}

/// The timestamp for a clock reading: a clock set before the epoch counts as the epoch.
pub open spec fn timestamp(reading: Option<u64>) -> u64 {
    match reading {
        Some(seconds) => seconds,
        None => 0,
    }
}

/// Whether a timestamp is one that a reading of the system clock gave.
pub open spec fn is_current_time(seconds: u64) -> bool {
    exists|reading: Option<u64>| #[trigger]
        is_clock_reading(reading) && seconds == timestamp(reading)
}

/// The timestamp for a clock reading: a clock set before the epoch counts as the epoch.
pub fn saturated_seconds(reading: Option<u64>) -> (res: u64)
    ensures
        res == timestamp(reading),
        reading matches Some(seconds) ==> res == seconds,
        reading is None ==> res == 0,
{
    match reading {
        Some(seconds) => seconds,
        None => 0,
    }
}

/// Return the current Unix timestamp in seconds, saturating before the epoch.
///
/// It is the timestamp of a reading of the system clock; which reading comes is up to the clock.
pub fn unix_time_seconds() -> (res: u64)
    ensures
        is_current_time(res),
        exists|reading: Option<u64>| #[trigger]
            is_clock_reading(reading) && (reading matches Some(seconds) ==> res == seconds) && (
            reading is None ==> res == 0),
{
    let moment = SystemTime::now();
    let reading = seconds_since_epoch(moment);
    assert(is_clock_reading(reading));
    saturated_seconds(reading)
}

/// A clock reading is what the two calls gave: the clock was asked for the present moment, and
/// that moment was measured from the epoch.
pub(crate) proof fn clock_reading_was_taken(reading: Option<u64>)
    requires
        is_clock_reading(reading),
    ensures
        exists|moment: SystemTime|
            call_ensures(SystemTime::now, (), moment) && #[trigger] call_ensures(
                seconds_since_epoch,
                (moment,),
                reading,
            ),
{
}

/// A timestamp of the present is a clock reading to the second. Only a clock set before the epoch
/// gives another number than its own, and that number is zero.
pub proof fn current_time_is_the_clock_reading(seconds: u64)
    requires
        is_current_time(seconds),
    ensures
        is_clock_reading(Some(seconds)) || (seconds == 0 && is_clock_reading(None)),
{
}

} // verus!
