//! Civil-calendar arithmetic: the year that contains a given count of days,
//! or of seconds, since the epoch of 1970. The caller reads the clock; the
//! conversion here is pure.

use vstd::prelude::*;

verus! {

/// Whether the year is a leap year of the Gregorian calendar.
pub open spec fn spec_is_leap_year(y: int) -> bool {
    y % 4 == 0 && (y % 100 != 0 || y % 400 == 0)
}

/// How many days the year has.
pub open spec fn spec_days_in_year(y: int) -> int {
    if spec_is_leap_year(y) {
        366
    } else {
        365
    }
}

/// The year reached by walking the given count of whole days forward from
/// the first day of the given year.
pub open spec fn spec_year_of_day(days: int, year: int) -> int
    decreases days,
{
    if days < spec_days_in_year(year) {
        year
    } else {
        spec_year_of_day(days - spec_days_in_year(year), year + 1)
    }
}

/// The year that contains the given count of seconds since the epoch.
pub open spec fn spec_year_of_unix_seconds(secs: int) -> int {
    spec_year_of_day(secs / 86400, 1970)
}

/// Whether the year is a leap year of the Gregorian calendar.
pub fn is_leap_year(y: u64) -> (r: bool)
    ensures
        r == spec_is_leap_year(y as int),
{
    y % 4 == 0 && (y % 100 != 0 || y % 400 == 0)
}

/// How many days the year has.
pub fn days_in_year(y: u64) -> (r: u64)
    ensures
        r == spec_days_in_year(y as int),
{
    if is_leap_year(y) {
        366
    } else {
        365
    }
}

/// The year that contains the given count of seconds since the epoch of
/// 1970, on the Gregorian calendar, ignoring leap seconds.
pub fn year_of_unix_seconds(secs: u64) -> (y: u64)
    ensures
        y == spec_year_of_unix_seconds(secs as int),
{
    let total_days: u64 = secs / 86400;
    let mut days: u64 = total_days;
    let mut year: u64 = 1970;
    while days >= days_in_year(year)
        invariant
            1970 <= year,
            365 * (year - 1970) + days <= total_days,
            spec_year_of_day(days as int, year as int) == spec_year_of_day(
                total_days as int,
                1970,
            ),
        decreases days,
    {
        days = days - days_in_year(year);
        year = year + 1;
    }
    year
}

} // verus!
