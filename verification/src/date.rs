//! Calendar dates and the clock.
//!
//! A due date is written as text, day first: `"25.12.2030"`. Reading that
//! text and reading the clock are left to `chrono` and `time`; comparing two
//! dates is done here.

use vstd::prelude::*;

verus! {

/// A day of the proleptic Gregorian calendar, without a time of day.
#[derive(Clone, Copy, Debug, PartialEq, Eq, Structural)]
pub struct CalendarDate {
    pub year: i32,
    pub month: u32,
    pub day: u32,
}

/// What `chrono::NaiveDate::parse_from_str` makes of `text` under the pattern
/// `%d.%m.%Y`: the year, month and day of the date it reads, or `None` where
/// it rejects the text.
pub uninterp spec fn parsed_due_date(text: Seq<char>) -> Option<(i32, u32, u32)>;

impl CalendarDate {
    /// A month from 1 to 12 and a day from 1 to 31.
    pub open spec fn in_range(self) -> bool {
        1 <= self.month <= 12 && 1 <= self.day <= 31
    }

    /// `self` lies strictly earlier in the calendar than `other`.
    pub open spec fn is_before(self, other: CalendarDate) -> bool {
        self.year < other.year || (self.year == other.year && (self.month < other.month || (
        self.month == other.month && self.day < other.day)))
    }

    pub fn new(year: i32, month: u32, day: u32) -> (date: CalendarDate)
        ensures
            date.year == year,
            date.month == month,
            date.day == day,
    {
        CalendarDate { year, month, day }
    }

    /// Whether `self` lies strictly earlier in the calendar than `other`.
    pub fn before(&self, other: &CalendarDate) -> (earlier: bool)
        ensures
            earlier == self.is_before(*other),
    {
        if self.year != other.year {
            self.year < other.year
        } else if self.month != other.month {
            self.month < other.month
        } else {
            self.day < other.day
        }
    }

    /// Builds the date that a read of due-date text gave.
    pub fn from_parsed(parsed: Option<(i32, u32, u32)>) -> (date: Option<CalendarDate>)
        ensures
            date == date_of(parsed),
    {
        match parsed {
            Some((year, month, day)) => Some(CalendarDate { year, month, day }),
            None => None,
        }
    }

    /// Reads a due date written as day, month and year with dots between
    /// them. `None` where the text is no such date.
    pub fn parse(text: &str) -> (date: Option<CalendarDate>)
        ensures
            date == due_date_of(text@),
            date matches Some(d) ==> d.in_range(),
    {
        CalendarDate::from_parsed(parse_day_month_year(text))
    }

    /// The current day in UTC.
    pub fn today() -> (date: CalendarDate)
        ensures
            date.in_range(),
    {
        let (year, month, day) = utc_today();
        CalendarDate { year, month, day }
    }
}

/// The date that a parsed triple stands for.
pub open spec fn date_of(parsed: Option<(i32, u32, u32)>) -> Option<CalendarDate> {
    match parsed {
        Some((year, month, day)) => Some(CalendarDate { year, month, day }),
        None => None,
    }
}

/// The due date that `text` denotes, if it denotes one.
pub open spec fn due_date_of(text: Seq<char>) -> Option<CalendarDate> {
    date_of(parsed_due_date(text))
}

/// Calls `chrono::NaiveDate::parse_from_str` with the pattern `%d.%m.%Y`.
/// Trusted: the result is a function of the text alone, and a date that
/// chrono accepts has a month from 1 to 12 and a day from 1 to 31.
#[verifier::external_body]
pub(crate) fn parse_day_month_year(text: &str) -> (parsed: Option<(i32, u32, u32)>)
    ensures
        parsed == parsed_due_date(text@),
        parsed matches Some(p) ==> 1 <= p.1 <= 12 && 1 <= p.2 <= 31,
{
    match chrono::NaiveDate::parse_from_str(text, "%d.%m.%Y") {
        Ok(date) => Some(
            (chrono::Datelike::year(&date), chrono::Datelike::month(&date), chrono::Datelike::day(&date)),
        ),
        Err(_) => None,
    }
}

/// Calls `chrono::Utc::now` and takes the date of the answer. Trusted: the
/// month is from 1 to 12 and the day from 1 to 31; which day it is depends
/// on the clock.
#[verifier::external_body]
pub(crate) fn utc_today() -> (today: (i32, u32, u32))
    ensures
        1 <= today.1 <= 12,
        1 <= today.2 <= 31,
{
    let date = chrono::Utc::now().date_naive();
    (chrono::Datelike::year(&date), chrono::Datelike::month(&date), chrono::Datelike::day(&date))
}

/// Calls `time::now` and gives the answer in seconds since 1970-01-01 UTC.
/// Nothing is promised of the value: it depends on the clock.
#[verifier::external_body]
pub(crate) fn clock_seconds() -> (seconds: i64)
{
    time::now().to_timespec().sec
}

} // verus!
