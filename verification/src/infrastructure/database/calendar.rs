//! Calendar dates and their canonical `YYYY-MM-DD` text form.

use vstd::prelude::*;
use crate::infrastructure::text::zero_padded;

verus! {

/// The earliest year a date can have.
pub const MIN_YEAR: i32 = -262_143;

/// The latest year a date can have.
pub const MAX_YEAR: i32 = 262_142;

/// Whether `year` is a leap year of the proleptic Gregorian calendar.
pub open spec fn is_leap_year(year: int) -> bool {
    year % 4 == 0 && (year % 100 != 0 || year % 400 == 0)
}

/// The number of days of `month` in `year`.
pub open spec fn days_in_month(year: int, month: int) -> int {
    if month == 2 {
        if is_leap_year(year) {
            29
        } else {
            28
        }
    } else if month == 4 || month == 6 || month == 9 || month == 11 {
        30
    } else {
        31
    }
}

/// Whether year, month and day name a day that exists.
pub open spec fn is_calendar_date(year: int, month: int, day: int) -> bool {
    &&& MIN_YEAR <= year <= MAX_YEAR
    &&& 1 <= month <= 12
    &&& 1 <= day <= days_in_month(year, month)
}

/// The year as the date format writes it: four digits from 0 to 9999, and a
/// sign followed by at least four digits outside that range.
pub open spec fn year_text(year: int) -> Seq<char> {
    if 0 <= year <= 9999 {
        zero_padded(year as nat, 4)
    } else if year < 0 {
        "-"@ + zero_padded((-year) as nat, 4)
    } else {
        "+"@ + zero_padded(year as nat, 4)
    }
}

/// The text form `YYYY-MM-DD` of a date.
pub open spec fn iso_date(year: int, month: int, day: int) -> Seq<char> {
    year_text(year) + "-"@ + zero_padded(month as nat, 2) + "-"@ + zero_padded(day as nat, 2)
}

/// Formats a date with chrono: `NaiveDate::from_ymd_opt` builds the date and
/// `NaiveDate::format` with the pattern `%Y-%m-%d` renders it. The contract
/// claims that chrono accepts every day that exists within its range of
/// years, and that the rendering is the zero-padded year (signed outside
/// 0..=9999), month and day separated by hyphens.
#[verifier::external_body]
fn format_ymd(year: i32, month: u32, day: u32) -> (text: String)
    requires
        is_calendar_date(year as int, month as int, day as int),
    ensures
        text@ == iso_date(year as int, month as int, day as int),
{
    chrono::NaiveDate::from_ymd_opt(year, month, day)
        .map(|date| date.format("%Y-%m-%d").to_string())
        .unwrap_or_default()
}

/// A day of the proleptic Gregorian calendar.
#[derive(Clone, Copy, Debug, PartialEq, Eq)]
pub struct CalendarDate {
    year: i32,
    month: u32,
    day: u32,
}

impl CalendarDate {
    #[verifier::type_invariant]
    spec fn is_real_day(self) -> bool {
        is_calendar_date(self.year as int, self.month as int, self.day as int)
    }

    /// The year of this date.
    pub closed spec fn year_spec(self) -> int {
        self.year as int
    }

    /// The month of this date, from 1.
    pub closed spec fn month_spec(self) -> int {
        self.month as int
    }

    /// The day of the month of this date, from 1.
    pub closed spec fn day_spec(self) -> int {
        self.day as int
    }

    /// The canonical text form of this date.
    pub open spec fn text(self) -> Seq<char> {
        iso_date(self.year_spec(), self.month_spec(), self.day_spec())
    }

    /// The date with the given year, month and day, if that day exists.
    pub fn new(year: i32, month: u32, day: u32) -> (date: Option<CalendarDate>)
        ensures
            date is Some <==> is_calendar_date(year as int, month as int, day as int),
            date matches Some(d) ==> d.year_spec() == year && d.month_spec() == month
                && d.day_spec() == day,
    {
        if year < MIN_YEAR || year > MAX_YEAR || month < 1 || month > 12 || day < 1 {
            return None;
        }
        // 262400 is a multiple of 400, so the shifted year is leap when the year is.
        let shifted: u32 = (year + 262_400) as u32;
        let leap = shifted % 4 == 0 && (shifted % 100 != 0 || shifted % 400 == 0);
        let length: u32 = if month == 2 {
            if leap {
                29
            } else {
                28
            }
        } else if month == 4 || month == 6 || month == 9 || month == 11 {
            30
        } else {
            31
        };
        assert(leap == is_leap_year(year as int));
        if day > length {
            None
        } else {
            Some(CalendarDate { year, month, day })
        }
    }

    pub fn year(&self) -> (year: i32)
        ensures
            year == self.year_spec(),
    {
        self.year
    }

    pub fn month(&self) -> (month: u32)
        ensures
            month == self.month_spec(),
            1 <= month <= 12,
    {
        proof {
            use_type_invariant(self);
        }
        self.month
    }

    pub fn day(&self) -> (day: u32)
        ensures
            day == self.day_spec(),
            1 <= day <= 31,
    {
        proof {
            use_type_invariant(self);
        }
        self.day
    }

    /// Writes this date as `YYYY-MM-DD`.
    pub fn to_text(&self) -> (text: String)
        ensures
            text@ == self.text(),
    {
        proof {
            use_type_invariant(self);
        }
        format_ymd(self.year, self.month, self.day)
    }
}

} // verus!
