//! Dates and times of day, read through the `time` crate.

use vstd::prelude::*;

verus! {

/// Format of the date field, in the `time` crate's description syntax.
pub const TIME_DATE_FMT: &'static str = "[year]-[month]-[day]";

/// Format of the time field, in the `time` crate's description syntax.
pub const TIME_TIME_FMT: &'static str = "[hour]:[minute]:[second]";

/// A calendar date.
#[derive(Debug, Clone, Copy, PartialEq, Eq, Structural)]
pub struct Date {
    pub year: i32,
    pub month: u8,
    pub day: u8,
}

/// Whether `year` is a leap year of the Gregorian calendar.
pub open spec fn is_leap_year(year: int) -> bool {
    year % 4 == 0 && (year % 100 != 0 || year % 400 == 0)
}

/// The number of days of `month` (1 to 12) in `year`.
pub open spec fn days_in_month(year: int, month: int) -> int {
    if month == 2 {
        if is_leap_year(year) {
            29
        } else {
            28
        }
    } else if month == 4 || month == 6 || month == 9 || month == 11 {
        30
    } else {
        31
    }
}

impl Date {
    /// The month is 1 to 12 and the day is one of that month.
    pub open spec fn is_valid(&self) -> bool {
        1 <= self.month <= 12 && 1 <= self.day <= days_in_month(self.year as int, self.month as int)
    }

    /// The date of `day` in `month` (1 to 12) of `year`; `None` when the
    /// month has no such day.
    pub fn from_calendar_date(year: i32, month: u8, day: u8) -> (r: Option<Self>)
        ensures
            r matches Some(d) ==> d == (Date { year, month, day }),
            r is Some <==> (Date { year, month, day }).is_valid(),
    {
        if month < 1 || month > 12 || day < 1 {
            return None;
        }
        let leap = year % 4 == 0 && (year % 100 != 0 || year % 400 == 0);
        let days: u8 = if month == 2 {
            if leap {
                29
            } else {
                28
            }
        } else if month == 4 || month == 6 || month == 9 || month == 11 {
            30
        } else {
            31
        };
        if day > days {
            return None;
        }
        Some(Date { year, month, day })
    }
}

/// A time of day.
#[derive(Debug, Clone, Copy, PartialEq, Eq, Structural)]
pub struct Time {
    pub hour: u8,
    pub minute: u8,
    pub second: u8,
    pub nanosecond: u32,
}

impl Time {
    /// The hour is below 24, the minute and second below 60, and the
    /// nanosecond below one second.
    pub open spec fn is_valid(&self) -> bool {
        self.hour < 24 && self.minute < 60 && self.second < 60 && self.nanosecond < 1_000_000_000
    }

    /// The time `hour:minute:second`; `None` when one of them is out of
    /// range.
    pub fn from_hms(hour: u8, minute: u8, second: u8) -> (r: Option<Self>)
        ensures
            r matches Some(t) ==> t == (Time { hour, minute, second, nanosecond: 0 }),
            r is Some <==> (Time { hour, minute, second, nanosecond: 0 }).is_valid(),
    {
        if hour < 24 && minute < 60 && second < 60 {
            Some(Time { hour, minute, second, nanosecond: 0 })
        } else {
            None
        }
    }
}

/// A date and time of day in UTC.
#[derive(Debug, Clone, Copy, PartialEq, Eq, Structural)]
pub struct DateTime {
    pub date: Date,
    pub time: Time,
}

/// The year, month and day that `time::Date::parse` reads from `text` in
/// `format`, if it reads one.
pub uninterp spec fn date_of(text: Seq<char>, format: Seq<char>) -> Option<(i32, u8, u8)>;

/// The hour, minute, second and nanosecond that `time::Time::parse` reads
/// from `text` in `format`, if it reads one.
pub uninterp spec fn time_of(text: Seq<char>, format: Seq<char>) -> Option<(u8, u8, u8, u32)>;

/// Relies on `time::Date::parse` (after `time::format_description::parse_borrowed`
/// turns `format` into its items): the date that `text` spells in `format`.
#[verifier::external_body]
pub(crate) fn parse_date(text: &str, format: &str) -> (r: Option<Date>)
    ensures
        match r {
            Some(d) => date_of(text@, format@) == Some((d.year, d.month, d.day)),
            None => date_of(text@, format@) is None,
        },
{
    let items = time::format_description::parse_borrowed::<1>(format).ok()?;
    let d = time::Date::parse(text, &items).ok()?;
    Some(Date { year: d.year(), month: d.month() as u8, day: d.day() })
}

/// Relies on `time::Time::parse` (after `time::format_description::parse_borrowed`
/// turns `format` into its items): the time of day that `text` spells in
/// `format`.
#[verifier::external_body]
pub(crate) fn parse_time(text: &str, format: &str) -> (r: Option<Time>)
    ensures
        match r {
            Some(t) => time_of(text@, format@) == Some((t.hour, t.minute, t.second, t.nanosecond)),
            None => time_of(text@, format@) is None,
        },
{
    let items = time::format_description::parse_borrowed::<1>(format).ok()?;
    let t = time::Time::parse(text, &items).ok()?;
    Some(Time { hour: t.hour(), minute: t.minute(), second: t.second(), nanosecond: t.nanosecond() })
}

} // verus!
