//! The wall clock, in whole seconds since the start of 1970 (UTC).

use vstd::prelude::*;

verus! {

/// The last second the clock's calendar can name: the end of the year 262142.
pub const LATEST_SECOND: i64 = 8_210_266_876_799;

/// The readings the wall clock can give.
pub open spec fn clock_reading(seconds: i64) -> bool {
    0 <= seconds <= LATEST_SECOND
}

/// Reads the wall clock: `chrono::Utc::now()` followed by `DateTime::timestamp`.
///
/// Believed, not proved: the reading is not negative and not beyond the calendar
/// of `chrono`. `Utc::now` takes the system time as a span since the epoch and
/// builds a date from it; where the system clock stands before 1970, or beyond
/// that calendar, it stops the program and returns nothing. Two readings need
/// not agree, and a later one need not be larger.
#[verifier::external_body]
pub(crate) fn unix_now() -> (seconds: i64)
    ensures
        clock_reading(seconds),
{
    chrono::Utc::now().timestamp()
}

} // verus!
