//! Calendar arithmetic. The proleptic Gregorian calendar is chrono's; this
//! module holds dates as plain numbers and names what chrono computes.
use chrono::Datelike;
use vstd::prelude::*;

verus! {

/// A calendar date in UTC, as year, month (1 to 12) and day of month (1 to 31).
#[derive(Debug, Clone, Copy, PartialEq, Eq, Structural)]
pub struct CalendarDate {
    pub year: i32,
    pub month: u32,
    pub day: u32,
}

impl CalendarDate {
    /// Month and day lie in the ranges a calendar has.
    pub open spec fn well_formed(&self) -> bool {
        1 <= self.month <= 12 && 1 <= self.day <= 31
    }
}

/// The UTC calendar date on which the instant `secs` seconds after
/// 1970-01-01T00:00:00Z falls, where chrono's calendar reaches that instant.
pub uninterp spec fn utc_date_of(secs: int) -> Option<CalendarDate>;

/// The number of seconds from 1970-01-01T00:00:00Z to midnight UTC at the start
/// of the given calendar day, where chrono's calendar has such a day.
pub uninterp spec fn utc_midnight_of(year: int, month: int, day: int) -> Option<i64>;

/// Calls `chrono::DateTime::from_timestamp` with no nanoseconds and reads the
/// date of the result through `date_naive`, `year`, `month` and `day`. The
/// outcome depends on `secs` alone; chrono documents that `month` returns 1 to
/// 12 and `day` 1 to 31, and that an instant outside its calendar gives `None`.
/// Its calendar reaches some 262,000 years to either side of the epoch, so
/// every instant that 32 bits can count from the epoch has a date.
#[verifier::external_body]
pub(crate) fn utc_date(secs: i64) -> (date: Option<CalendarDate>)
    ensures
        date == utc_date_of(secs as int),
        date matches Some(d) ==> d.well_formed(),
        0 <= secs <= u32::MAX ==> date is Some,
{
    match chrono::DateTime::from_timestamp(secs, 0) {
        Some(at) => {
            let day = at.date_naive();
            Some(CalendarDate { year: day.year(), month: day.month(), day: day.day() })
        },
        None => None,
    }
}

/// Calls `chrono::NaiveDate::from_ymd_opt`, then `and_hms_opt(0, 0, 0)`,
/// `and_utc` and `timestamp` on the date it found. The outcome depends on the
/// three numbers alone; a day that the calendar lacks gives `None`.
#[verifier::external_body]
pub(crate) fn utc_midnight(year: i32, month: u32, day: u32) -> (secs: Option<i64>)
    ensures
        secs == utc_midnight_of(year as int, month as int, day as int),
{
    match chrono::NaiveDate::from_ymd_opt(year, month, day) {
        Some(date) => match date.and_hms_opt(0, 0, 0) {
            Some(at) => Some(at.and_utc().timestamp()),
            None => None,
        },
        None => None,
    }
}

/// The instant a timestamp names, kept only where the calendar reaches it.
pub open spec fn spec_checked_instant(secs: int) -> Option<i64> {
    if secs <= i64::MAX && utc_date_of(secs).is_some() {
        Some(secs as i64)
    } else {
        None
    }
}

/// Turns a count of seconds since the epoch into an instant of the catalog:
/// `Some` exactly when the count fits the calendar.
pub fn checked_instant(secs: u64) -> (instant: Option<i64>)
    ensures
        instant == spec_checked_instant(secs as int),
{
    if secs > 0x7fff_ffff_ffff_ffff {
        return None;
    }
    let signed: i64 = secs as i64;
    match utc_date(signed) {
        Some(_) => Some(signed),
        None => None,
    }
}

} // verus!
