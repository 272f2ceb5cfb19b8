//! Calendar dates, and the reading of a date from its text.

use vstd::prelude::*;
use chrono::Datelike;

verus! {

/// Whether `year` is a leap year of the proleptic Gregorian calendar.
pub open spec fn is_leap_year(year: int) -> bool {
    year % 4 == 0 && (year % 100 != 0 || year % 400 == 0)
}

/// The number of days of `month` in `year`; 0 for a month outside 1 to 12.
pub open spec fn days_in_month(year: int, month: int) -> int {
    if month == 2 {
        if is_leap_year(year) {
            29
        } else {
            28
        }
    } else if month == 4 || month == 6 || month == 9 || month == 11 {
        30
    } else if 1 <= month <= 12 {
        31
    } else {
        0
    }
}

/// Whether the calendar has a day `day` of `month` in `year`.
pub open spec fn is_calendar_date(year: int, month: int, day: int) -> bool {
    1 <= month <= 12 && 1 <= day <= days_in_month(year, month)
}

/// What chrono reads from `text` as a date: the year, month and day, or
/// `None` where it rejects the text.
pub uninterp spec fn parsed_date(text: Seq<char>) -> Option<(int, int, int)>;

/// Reads a date with chrono's `FromStr` for `NaiveDate`, which takes the
/// format `%Y-%m-%d`, and hands out its year, month and day
/// (`Datelike::year`, `month`, `day`). The contract names the outcome and
/// claims of it that a date which chrono accepts exists in the calendar.
#[verifier::external_body]
fn read_date(text: &str) -> (parts: Option<(i32, u32, u32)>)
    ensures
        match parts {
            Some((y, m, d)) => parsed_date(text@) == Some((y as int, m as int, d as int))
                && is_calendar_date(y as int, m as int, d as int),
            None => parsed_date(text@) is None,
        },
{
    match text.parse::<chrono::NaiveDate>() {
        Ok(date) => Some((date.year(), date.month(), date.day())),
        Err(_) => None,
    }
}

/// A day of the proleptic Gregorian calendar. Every value is a day that the
/// calendar has.
#[derive(Clone, Copy, Debug)]
pub struct CalendarDate {
    year: i32,
    month: u8,
    day: u8,
}

impl View for CalendarDate {
    type V = (int, int, int);

    /// The year, the month from 1 and the day of the month from 1.
    closed spec fn view(&self) -> (int, int, int) {
        (self.year as int, self.month as int, self.day as int)
    }
}

impl CalendarDate {
    #[verifier::type_invariant]
    spec fn exists_in_calendar(self) -> bool {
        is_calendar_date(self.year as int, self.month as int, self.day as int)
    }

    /// Whether `year` is a leap year.
    pub fn leap_year(year: i32) -> (leap: bool)
        ensures
            leap == is_leap_year(year as int),
    {
        year % 4 == 0 && (year % 100 != 0 || year % 400 == 0)
    }

    /// The number of days of `month` in `year`.
    pub fn month_length(year: i32, month: u32) -> (days: u8)
        ensures
            days == days_in_month(year as int, month as int),
    {
        if month == 2 {
            if Self::leap_year(year) {
                29
            } else {
                28
            }
        } else if month == 4 || month == 6 || month == 9 || month == 11 {
            30
        } else if 1 <= month && month <= 12 {
            31
        } else {
            0
        }
    }

    /// The date with the given year, month and day, where the calendar has it.
    pub fn new(year: i32, month: u32, day: u32) -> (date: Option<CalendarDate>)
        ensures
            date is Some <==> is_calendar_date(year as int, month as int, day as int),
            date is Some ==> date->0@ == (year as int, month as int, day as int),
    {
        let length: u8 = Self::month_length(year, month);
        if 1 <= month && month <= 12 && 1 <= day && day <= length as u32 {
            Some(CalendarDate { year, month: month as u8, day: day as u8 })
        } else {
            None
        }
    }

    /// The date that `parts` names, where there are parts and the calendar
    /// has the day.
    pub fn from_parts(parts: Option<(i32, u32, u32)>) -> (date: Option<CalendarDate>)
        ensures
            match parts {
                Some((y, m, d)) => {
                    &&& date is Some <==> is_calendar_date(y as int, m as int, d as int)
                    &&& date is Some ==> date->0@ == (y as int, m as int, d as int)
                },
                None => date is None,
            },
    {
        match parts {
            Some((y, m, d)) => Self::new(y, m, d),
            None => None,
        }
    }

    /// Reads a date written as year, month and day with hyphens between them,
    /// such as `2019-01-01`. The date comes back exactly where the text is
    /// accepted, and it is the date read.
    pub fn parse(text: &str) -> (date: Option<CalendarDate>)
        ensures
            date is Some <==> parsed_date(text@) is Some,
            date is Some ==> parsed_date(text@) == Some(date->0@),
    {
        Self::from_parts(read_date(text))
    }

    /// The year.
    pub fn year(&self) -> (year: i32)
        ensures
            year == self@.0,
    {
        self.year
    }

    /// The month, from 1 to 12.
    pub fn month(&self) -> (month: u8)
        ensures
            month == self@.1,
            1 <= month <= 12,
    {
        proof {
            use_type_invariant(self);
        }
        self.month
    }

    /// The day of the month, from 1.
    pub fn day(&self) -> (day: u8)
        ensures
            day == self@.2,
            1 <= day <= 31,
    {
        proof {
            use_type_invariant(self);
        }
        self.day
    }
}

} // verus!
