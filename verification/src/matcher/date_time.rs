//! Local dates and times, as the fields that the renames are built from.

use vstd::prelude::*;

use crate::replacement::opt_view;
use chrono::{Datelike, TimeZone, Timelike};
use std::fmt::Write;

verus! {

/// Whether `year` is a leap year of the proleptic Gregorian calendar.
pub open spec fn is_leap_year(year: int) -> bool {
    year % 4 == 0 && (year % 100 != 0 || year % 400 == 0)
}

/// The number of days of `month` (1 to 12) in `year`.
pub open spec fn days_in_month(year: int, month: int) -> int {
    if month == 2 {
        if is_leap_year(year) {
            29
        } else {
            28
        }
    } else if month == 4 || month == 6 || month == 9 || month == 11 {
        30
    } else {
        31
    }
}

/// Whether the fields name a day of the calendar and a time of that day
/// (no leap second).
pub open spec fn valid_fields(year: int, month: int, day: int, hour: int, min: int, sec: int) -> bool {
    &&& 1 <= month <= 12
    &&& 1 <= day <= days_in_month(year, month)
    &&& 0 <= hour < 24
    &&& 0 <= min < 60
    &&& 0 <= sec < 60
}

/// What chrono prints for the local date and time with the given fields and
/// offset from UTC (in seconds) under the format string `format`, or `None`
/// where chrono refuses to print it.
pub uninterp spec fn formatted_date_time(
    year: i32,
    month: u32,
    day: u32,
    hour: u32,
    min: u32,
    sec: u32,
    offset: i32,
    format: Seq<char>,
) -> Option<Seq<char>>;

/// A date and time in the local time zone: its wall-clock fields and its
/// offset from UTC in seconds.
#[derive(Debug, Clone, Copy, PartialEq, Eq, Structural)]
pub struct LocalDateTime {
    pub year: i32,
    pub month: u32,
    pub day: u32,
    pub hour: u32,
    pub min: u32,
    pub sec: u32,
    pub offset: i32,
}

/// `Local.with_ymd_and_hms(..).earliest()` of chrono, as fields.
///
/// The result depends on the time zone of the machine, so it gets no name:
/// the contract states what holds of every time zone. A result carries the
/// fields it was asked for, which name a valid date and time; fields that do
/// not name one give `None`. Which valid fields give `None` (those that fall
/// in a gap of the local time) and which offset a result has is left unsaid.
#[verifier::external_body]
fn chrono_local(year: i32, month: u32, day: u32, hour: u32, min: u32, sec: u32) -> (res: Option<LocalDateTime>)
    ensures
        res matches Some(dt) ==> dt.year == year && dt.month == month && dt.day == day
            && dt.hour == hour && dt.min == min && dt.sec == sec,
        res is Some ==> valid_fields(year as int, month as int, day as int, hour as int, min as int, sec as int),
        !valid_fields(year as int, month as int, day as int, hour as int, min as int, sec as int) ==> res is None,
{
    let dt = chrono::Local.with_ymd_and_hms(year, month, day, hour, min, sec).earliest()?;
    Some(LocalDateTime {
        year: dt.year(),
        month: dt.month(),
        day: dt.day(),
        hour: dt.hour(),
        min: dt.minute(),
        sec: dt.second(),
        offset: dt.offset().local_minus_utc(),
    })
}

/// `chrono::Local::now()`, as fields.
///
/// The result is the current time: the contract only says that its fields
/// name a valid date and time.
#[verifier::external_body]
fn chrono_now() -> (res: LocalDateTime)
    ensures
        valid_fields(res.year as int, res.month as int, res.day as int, res.hour as int, res.min as int, res.sec as int),
{
    let dt = chrono::Local::now();
    LocalDateTime {
        year: dt.year(),
        month: dt.month(),
        day: dt.day(),
        hour: dt.hour(),
        min: dt.minute(),
        sec: dt.second(),
        offset: dt.offset().local_minus_utc(),
    }
}

/// chrono's `format` of the date and time, written into a `String`.
///
/// The contract claims that the result is what chrono prints for these fields,
/// offset and format, `None` where chrono reports an error.
#[verifier::external_body]
fn chrono_format(dt: &LocalDateTime, format: &str) -> (res: Option<String>)
    ensures
        opt_view(res) == formatted_date_time(dt.year, dt.month, dt.day, dt.hour, dt.min, dt.sec, dt.offset, format@),
{
    let offset = chrono::FixedOffset::east_opt(dt.offset)?;
    let naive = chrono::NaiveDate::from_ymd_opt(dt.year, dt.month, dt.day)?.and_hms_opt(dt.hour, dt.min, dt.sec)?;
    let date_time = offset.from_local_datetime(&naive).single()?;
    let mut res = String::new();
    write!(res, "{}", date_time.format(format)).ok()?;
    Some(res)
}

/// Whether `o` may be what the local time zone gives for these fields: a
/// date and time with them, which are then valid; nothing when they name no
/// valid date and time.
pub open spec fn local_outcome(o: Option<LocalDateTime>, year: i32, month: u32, day: u32, hour: u32, min: u32, sec: u32) -> bool {
    &&& (o matches Some(dt) ==> dt.has_fields(year, month, day, hour, min, sec) && dt.is_valid())
    &&& (!valid_fields(year as int, month as int, day as int, hour as int, min as int, sec as int) ==> o is None)
}

impl LocalDateTime {
    /// Whether the fields name a valid date and time.
    pub open spec fn is_valid(&self) -> bool {
        valid_fields(self.year as int, self.month as int, self.day as int, self.hour as int, self.min as int, self.sec as int)
    }

    /// Whether the fields are those given.
    pub open spec fn has_fields(&self, year: i32, month: u32, day: u32, hour: u32, min: u32, sec: u32) -> bool {
        self.year == year && self.month == month && self.day == day && self.hour == hour && self.min == min
            && self.sec == sec
    }

    /// The earliest local date and time with these fields, if the local time
    /// zone has one.
    pub fn local(year: i32, month: u32, day: u32, hour: u32, min: u32, sec: u32) -> (res: Option<LocalDateTime>)
        ensures
            res matches Some(dt) ==> dt.has_fields(year, month, day, hour, min, sec) && dt.is_valid(),
            !valid_fields(year as int, month as int, day as int, hour as int, min as int, sec as int) ==> res is None,
            local_outcome(res, year, month, day, hour, min, sec),
    {
        chrono_local(year, month, day, hour, min, sec)
    }

    /// The current local date and time.
    pub fn now() -> (res: LocalDateTime)
        ensures
            res.is_valid(),
    {
        chrono_now()
    }

    /// What chrono prints for this date and time under `format`.
    pub open spec fn spec_format(&self, format: Seq<char>) -> Option<Seq<char>> {
        formatted_date_time(self.year, self.month, self.day, self.hour, self.min, self.sec, self.offset, format)
    }

    /// This date and time printed under `format`; `None` where the format
    /// cannot be printed.
    pub fn format(&self, format: &str) -> (res: Option<String>)
        ensures
            opt_view(res) == self.spec_format(format@),
    {
        chrono_format(self, format)
    }
}

} // verus!
