//! Points in time, counted in whole seconds since the Unix epoch.
//!
//! The calendar arithmetic is chrono's: this module only says which civil
//! dates chrono accepts and gives the resulting count of seconds a name.

use chrono::TimeZone;
use chrono::Utc;
use vstd::prelude::*;

verus! {

/// Smallest year chrono can represent.
pub const MIN_YEAR: i32 = -262143;

/// Largest year chrono can represent.
pub const MAX_YEAR: i32 = 262142;

/// Whether `year` is a leap year of the proleptic Gregorian calendar, in which
/// year 0 is 1 BCE.
pub open spec fn is_leap_year(year: int) -> bool {
    year % 4 == 0 && (year % 100 != 0 || year % 400 == 0)
}

/// Number of days of `month` (1 to 12) in `year`.
pub open spec fn days_in_month(year: int, month: int) -> int {
    if month == 2 {
        if is_leap_year(year) {
            29
        } else {
            28
        }
    } else if month == 4 || month == 6 || month == 9 || month == 11 {
        30
    } else {
        31
    }
}

/// Whether the six fields name an existing second of an existing day.
pub open spec fn is_civil_utc(
    year: int,
    month: int,
    day: int,
    hour: int,
    min: int,
    sec: int,
) -> bool {
    &&& MIN_YEAR <= year <= MAX_YEAR
    &&& 1 <= month <= 12
    &&& 1 <= day <= days_in_month(year, month)
    &&& 0 <= hour < 24
    &&& 0 <= min < 60
    &&& 0 <= sec < 60
}

/// Seconds between the Unix epoch and the given civil time in UTC, leap
/// seconds not counted, as chrono computes them. Meaningful where
/// `is_civil_utc` holds.
pub uninterp spec fn utc_unix_seconds(year: int, month: int, day: int, hour: int, min: int, sec: int) -> int;

/// A point in time with a resolution of one second.
#[derive(Clone, Copy, Debug, PartialEq, Eq, Structural)]
pub struct Timestamp {
    /// Seconds since 1970-01-01T00:00:00Z; negative before it.
    pub unix_seconds: i64,
}

impl View for Timestamp {
    type V = int;

    open spec fn view(&self) -> int {
        self.unix_seconds as int
    }
}

impl DeepView for Timestamp {
    type V = int;

    open spec fn deep_view(&self) -> int {
        self@
    }
}

/// Calls chrono's `TimeZone::with_ymd_and_hms` on `Utc`, keeps the answer
/// where it is a single date-time (`MappedLocalTime::single`) and reads its
/// `DateTime::timestamp`.
///
/// Believed, not proved. Chrono builds the date with
/// `NaiveDate::from_ymd_opt` and the time with `NaiveDate::and_hms_opt`, which
/// give `None` for a day that does not exist, for a year outside
/// `MIN_YEAR..=MAX_YEAR` and for an hour, minute or second of 24, 60, 60 or
/// more, and for nothing else; in `Utc` every such time is a single
/// date-time. The count of seconds depends on the six fields alone.
#[verifier::external_body]
fn chrono_utc_seconds(year: i32, month: u32, day: u32, hour: u32, min: u32, sec: u32) -> (r: Option<i64>)
    ensures
        r is Some <==> is_civil_utc(
            year as int,
            month as int,
            day as int,
            hour as int,
            min as int,
            sec as int,
        ),
        r matches Some(s) ==> s as int == utc_unix_seconds(
            year as int,
            month as int,
            day as int,
            hour as int,
            min as int,
            sec as int,
        ),
{
    let moment = Utc.with_ymd_and_hms(year, month, day, hour, min, sec).single()?;
    Some(moment.timestamp())
}

impl Timestamp {
    /// The timestamp of a civil time in UTC, or `None` where no such second
    /// exists (the thirtieth of February, hour 24, a year out of range).
    pub fn from_utc(year: i32, month: u32, day: u32, hour: u32, min: u32, sec: u32) -> (r: Option<Timestamp>)
        ensures
            r is Some <==> is_civil_utc(
                year as int,
                month as int,
                day as int,
                hour as int,
                min as int,
                sec as int,
            ),
            r matches Some(t) ==> t@ == utc_unix_seconds(
                year as int,
                month as int,
                day as int,
                hour as int,
                min as int,
                sec as int,
            ),
    {
        match chrono_utc_seconds(year, month, day, hour, min, sec) {
            Some(unix_seconds) => Some(Timestamp { unix_seconds }),
            None => None,
        }
    }
}

} // verus!
