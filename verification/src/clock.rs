//! Wall-clock time as whole seconds since the Unix epoch.

use vstd::prelude::*;

verus! {

/// Seconds since 1970-01-01 00:00:00 UTC.
pub type Timestamp = u64;

/// Lifetime of an authentication ticket, in seconds.
pub const SESSION_TTL: u64 = 900;

/// Seconds in a day.
pub const SECONDS_PER_DAY: u64 = 86400;

/// Reads the system clock through `std::time::SystemTime::now`. A clock
/// set before the epoch reads as 0. Nothing is promised of the value:
/// callers must be correct for every reading.
#[verifier::external_body]
pub(crate) fn current_time() -> (now: Timestamp) {
    std::time::SystemTime::now().duration_since(std::time::UNIX_EPOCH).unwrap_or_default().as_secs()
}

/// Midnight (UTC) of the day that `now` falls on.
pub open spec fn start_of_day(now: Timestamp) -> Timestamp {
    (now - now % SECONDS_PER_DAY) as u64
}

/// Midnight (UTC) of the day that `now` falls on.
pub fn day_of(now: Timestamp) -> (day: Timestamp)
    ensures
        day == start_of_day(now),
{
    now - now % SECONDS_PER_DAY
}

} // verus!
