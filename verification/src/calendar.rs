//! The calendar date printed on a crate label, and its text.

use vstd::prelude::*;
use crate::text::decimal;

verus! {

/// A proleptic Gregorian calendar date: the date part of a purchase
/// order's document date.
#[derive(Clone, Copy, Debug)]
pub struct CalendarDate {
    pub year: i32,
    pub month: u32,
    pub day: u32,
}

/// The earliest year chrono's `NaiveDate` can hold.
pub open spec fn min_chrono_year() -> int {
    -262143
}

/// The latest year chrono's `NaiveDate` can hold.
pub open spec fn max_chrono_year() -> int {
    262142
}

pub open spec fn is_leap_year(year: int) -> bool {
    year % 4 == 0 && (year % 100 != 0 || year % 400 == 0)
}

pub open spec fn days_in_month(year: int, month: int) -> int {
    if month == 2 {
        if is_leap_year(year) { 29 } else { 28 }
    } else if month == 4 || month == 6 || month == 9 || month == 11 {
        30
    } else {
        31
    }
}

/// The dates chrono's `NaiveDate::from_ymd_opt` accepts.
pub open spec fn is_valid_date(year: int, month: int, day: int) -> bool {
    &&& min_chrono_year() <= year <= max_chrono_year()
    &&& 1 <= month <= 12
    &&& 1 <= day <= days_in_month(year, month)
}

/// The English name of a month (1 is January).
pub open spec fn month_name(month: int) -> Seq<char> {
    if month == 1 { "January"@ }
    else if month == 2 { "February"@ }
    else if month == 3 { "March"@ }
    else if month == 4 { "April"@ }
    else if month == 5 { "May"@ }
    else if month == 6 { "June"@ }
    else if month == 7 { "July"@ }
    else if month == 8 { "August"@ }
    else if month == 9 { "September"@ }
    else if month == 10 { "October"@ }
    else if month == 11 { "November"@ }
    else { "December"@ }
}

/// `s` with zeros in front of it up to four characters.
pub open spec fn zero_pad4(s: Seq<char>) -> Seq<char> {
    if s.len() >= 4 {
        s
    } else {
        Seq::new((4 - s.len()) as nat, |i: int| '0') + s
    }
}

/// chrono's `%Y`: years 0 to 9999 as four digits, other years with a sign
/// and at least four digits.
pub open spec fn year_text(year: int) -> Seq<char> {
    if 0 <= year <= 9999 {
        zero_pad4(decimal(year as nat))
    } else if year < 0 {
        seq!['-'] + zero_pad4(decimal((-year) as nat))
    } else {
        seq!['+'] + zero_pad4(decimal(year as nat))
    }
}

/// chrono's `%-d %B %Y`: the day without padding, the month's name and the year.
pub open spec fn date_text(year: int, month: int, day: int) -> Seq<char> {
    decimal(day as nat) + seq![' '] + month_name(month) + seq![' '] + year_text(year)
}

/// Calls chrono's `NaiveDate::from_ymd_opt` and formats the date with the
/// pattern `%-d %B %Y`. Claimed of chrono: a date is built exactly for the
/// valid dates in its year range, and the pattern writes the day without
/// padding, the English month name (chrono's default locale) and the year
/// as `%Y` does.
#[verifier::external_body]
fn chrono_day_month_year(year: i32, month: u32, day: u32) -> (res: Option<String>)
    ensures
        res is Some <==> is_valid_date(year as int, month as int, day as int),
        res matches Some(text) ==> text@ == date_text(year as int, month as int, day as int),
{
    match chrono::NaiveDate::from_ymd_opt(year, month, day) {
        Some(date) => Some(date.format("%-d %B %Y").to_string()),
        None => None,
    }
}

impl CalendarDate {
    pub open spec fn is_valid(&self) -> bool {
        is_valid_date(self.year as int, self.month as int, self.day as int)
    }

    /// The text of the date as the label prints it before upper-casing, or
    /// the empty text for a date that does not exist.
    pub open spec fn text(&self) -> Seq<char> {
        if self.is_valid() {
            date_text(self.year as int, self.month as int, self.day as int)
        } else {
            Seq::empty()
        }
    }

    /// The date written as day, month name and year, as in `5 March 2024`.
    pub fn day_month_year(&self) -> (res: String)
        ensures
            res@ == self.text(),
    {
        match chrono_day_month_year(self.year, self.month, self.day) {
            Some(text) => text,
            None => String::new(),
        }
    }
}

} // verus!
