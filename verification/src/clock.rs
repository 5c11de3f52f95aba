//! Reading the current time, and the range of times that have a date.

use vstd::prelude::*;

verus! {

/// Earliest timestamp, in seconds, that chrono has a date for: the first
/// second of the year -262143.
pub const FIRST_DATED_SECOND: i64 = -8334601228800;

/// Latest timestamp, in seconds, that chrono has a date for: the last second
/// of the year 262142.
pub const LAST_DATED_SECOND: i64 = 8210266876799;

/// Whole seconds from the Unix epoch to now, as std's `SystemTime::now()`
/// and `duration_since(UNIX_EPOCH)` give them; `None` when the system clock
/// reads a time before the epoch. It depends on the clock, so nothing more
/// is claimed of it.
#[verifier::external_body]
fn system_clock_seconds() -> (secs: Option<u64>) {
    match std::time::SystemTime::now().duration_since(std::time::UNIX_EPOCH) {
        Ok(d) => Some(d.as_secs()),
        Err(_) => None,
    }
}

/// The Unix timestamp a clock reading gives: the seconds read, when the clock
/// was read and the time has a date (it is no later than `LAST_DATED_SECOND`);
/// `None` otherwise.
pub open spec fn spec_timestamp_from_clock(secs: Option<u64>) -> Option<i64> {
    match secs {
        Some(s) => if s <= LAST_DATED_SECOND {
            Some(s as i64)
        } else {
            None
        },
        None => None,
    }
}

/// The Unix timestamp a clock reading gives.
pub fn timestamp_from_clock(secs: Option<u64>) -> (t: Option<i64>)
    ensures
        t == spec_timestamp_from_clock(secs),
{
    match secs {
        Some(s) => if s <= LAST_DATED_SECOND as u64 {
            Some(s as i64)
        } else {
            None
        },
        None => None,
    }
}

/// The current time as a Unix timestamp in seconds; `None` when the system
/// clock reads a time before the Unix epoch or past the last dated second.
pub fn now_timestamp() -> (t: Option<i64>)
    ensures
        t matches Some(s) ==> 0 <= s <= LAST_DATED_SECOND,
{
    let secs = system_clock_seconds();
    timestamp_from_clock(secs)
}

} // verus!
