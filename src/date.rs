use crate::error::Error;
use chrono::Datelike;
use vstd::prelude::*;

verus! {

/// The earliest year that a calendar date may have.
pub const MIN_YEAR: i32 = -262143;

/// The latest year that a calendar date may have.
pub const MAX_YEAR: i32 = 262142;

/// Leap years of the proleptic Gregorian calendar.
pub open spec fn is_leap_year(y: int) -> bool {
    (y % 4 == 0 && y % 100 != 0) || y % 400 == 0
}

/// The number of days in month `m` of year `y`.
pub open spec fn days_in_month(y: int, m: int) -> int {
    if m == 2 {
        if is_leap_year(y) {
            29
        } else {
            28
        }
    } else if m == 4 || m == 6 || m == 9 || m == 11 {
        30
    } else {
        31
    }
}

/// A day of the proleptic Gregorian calendar, within the years a date can hold.
pub open spec fn is_calendar_date(y: int, m: int, d: int) -> bool {
    &&& MIN_YEAR <= y <= MAX_YEAR
    &&& 1 <= m <= 12
    &&& 1 <= d <= days_in_month(y, m)
}

/// What the date parser reads from a text in a given format: year, month and
/// day, or nothing.
pub uninterp spec fn parsed_date(text: Seq<char>, format: Seq<char>) -> Option<(int, int, int)>;

/// A calendar date: year, month and day.
#[derive(Clone, Copy, Debug, PartialEq, Eq, Structural)]
pub struct Date {
    year: i32,
    month: u32,
    day: u32,
}

impl View for Date {
    type V = (int, int, int);

    closed spec fn view(&self) -> (int, int, int) {
        (self.year as int, self.month as int, self.day as int)
    }
}

/// How a caller gives a date: as `YYYY-MM-DD` text or as a calendar date.
#[derive(Clone, Debug, PartialEq, Eq)]
pub enum DateArg {
    String(String),
    Date(Date),
}

/// Relies on chrono's `NaiveDate::from_ymd_opt`: it returns a date exactly
/// when year, month and day form a day of the calendar within its years.
#[verifier::external_body]
fn calendar_date(year: i32, month: u32, day: u32) -> (r: Option<Date>)
    ensures
        r is Some <==> is_calendar_date(year as int, month as int, day as int),
        r is Some ==> r->Some_0@ == (year as int, month as int, day as int),
{
    match chrono::NaiveDate::from_ymd_opt(year, month, day) {
        Some(d) => Some(Date { year: d.year(), month: d.month(), day: d.day() }),
        None => None,
    }
}

/// Relies on chrono's `NaiveDate::parse_from_str`: what it reads depends on
/// the text and the format alone, and what it returns is a calendar date.
#[verifier::external_body]
fn parse_date(text: &str, format: &str) -> (r: Result<Date, String>)
    ensures
        r is Ok <==> parsed_date(text@, format@) is Some,
        r is Ok ==> r->Ok_0@ == parsed_date(text@, format@)->Some_0,
        r is Ok ==> r->Ok_0.wf(),
{
    match chrono::NaiveDate::parse_from_str(text, format) {
        Ok(d) => Ok(Date { year: d.year(), month: d.month(), day: d.day() }),
        Err(e) => Err(e.to_string()),
    }
}

impl Date {
    /// The date is a day of the calendar.
    pub open spec fn wf(&self) -> bool {
        is_calendar_date(self@.0, self@.1, self@.2)
    }

    /// The date of a year, month and day, if that day exists.
    pub fn from_ymd(year: i32, month: u32, day: u32) -> (r: Option<Date>)
        ensures
            r is Some <==> is_calendar_date(year as int, month as int, day as int),
            r is Some ==> r->Some_0@ == (year as int, month as int, day as int) && r->Some_0.wf(),
    {
        calendar_date(year, month, day)
    }

    /// Reads a date written `YYYY-MM-DD`; the error holds the parser's reason.
    pub fn parse(text: &str) -> (r: Result<Date, Error>)
        ensures
            r is Ok <==> parsed_date(text@, "%Y-%m-%d"@) is Some,
            r is Ok ==> r->Ok_0@ == parsed_date(text@, "%Y-%m-%d"@)->Some_0 && r->Ok_0.wf(),
            r is Err ==> r->Err_0 is BadDate,
    {
        match parse_date(text, "%Y-%m-%d") {
            Ok(d) => Ok(d),
            Err(msg) => Err(Error::BadDate(msg)),
        }
    }

    /// The date that a date argument gives.
    pub fn try_from_arg(arg: DateArg) -> (r: Result<Date, Error>)
        ensures
            match arg {
                DateArg::String(s) => {
                    &&& r is Ok <==> parsed_date(s@, "%Y-%m-%d"@) is Some
                    &&& r is Ok ==> r->Ok_0@ == parsed_date(s@, "%Y-%m-%d"@)->Some_0
                    &&& r is Err ==> r->Err_0 is BadDate
                },
                DateArg::Date(d) => r == Ok::<Date, Error>(d),
            },
    {
        match arg {
            DateArg::String(s) => Date::parse(s.as_str()),
            DateArg::Date(d) => Ok(d),
        }
    }

    /// The year.
    pub fn year(&self) -> (r: i32)
        ensures
            r as int == self@.0,
    {
        self.year
    }

    /// The month, from 1 to 12.
    pub fn month(&self) -> (r: u32)
        ensures
            r as int == self@.1,
    {
        self.month
    }

    /// The day of the month, from 1.
    pub fn day(&self) -> (r: u32)
        ensures
            r as int == self@.2,
    {
        self.day
    }
}

impl Default for Date {
    /// The first of January 2000.
    fn default() -> (r: Date)
        ensures
            r@ == (2000int, 1int, 1int),
            r.wf(),
    {
        Date::from_ymd(2000, 1, 1).unwrap()
    }
}

} // verus!
