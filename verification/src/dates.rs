//! Calendar dates in `YYYY-MM-DD` form, through `chrono`'s `NaiveDate`.
use vstd::prelude::*;
use crate::text::{trim, trim_spec, zero_padded_spec};
use chrono::Datelike;

verus! {

/// The date format of imports and search filters.
pub const DATE_FORMAT: &'static str = "%Y-%m-%d";

/// Smallest year that `NaiveDate` represents.
pub const MIN_YEAR: i32 = -262143;

/// Largest year that `NaiveDate` represents.
pub const MAX_YEAR: i32 = 262142;

/// Whether `year` is a leap year of the proleptic Gregorian calendar.
pub open spec fn is_leap_year(year: int) -> bool {
    (year % 4 == 0 && year % 100 != 0) || year % 400 == 0
}

/// The number of days in a month of the proleptic Gregorian calendar.
pub open spec fn days_in_month(year: int, month: int) -> int {
    if month == 2 {
        if is_leap_year(year) {
            29
        } else {
            28
        }
    } else if month == 4 || month == 6 || month == 9 || month == 11 {
        30
    } else {
        31
    }
}

/// A date that `NaiveDate` can hold.
pub open spec fn valid_date(year: i32, month: u32, day: u32) -> bool {
    &&& MIN_YEAR <= year <= MAX_YEAR
    &&& 1 <= month <= 12
    &&& 1 <= day <= days_in_month(year as int, month as int)
}

/// What `NaiveDate::parse_from_str` yields for this text and format, as year, month and day.
pub uninterp spec fn chrono_parse_date(text: Seq<char>, format: Seq<char>) -> Option<
    (i32, u32, u32),
>;

/// What `NaiveDate::format` writes for this date and format.
pub uninterp spec fn chrono_format_date(year: i32, month: u32, day: u32, format: Seq<char>) -> Option<
    Seq<char>,
>;

/// `%Y`: four digits for years 0 to 9999; otherwise a sign and at least four digits.
pub open spec fn year_text(year: int) -> Seq<char> {
    if 0 <= year <= 9999 {
        zero_padded_spec(year as nat, 4)
    } else if year < 0 {
        seq!['-'] + zero_padded_spec((-year) as nat, 4)
    } else {
        seq!['+'] + zero_padded_spec(year as nat, 4)
    }
}

/// The text of a date in `%Y-%m-%d` form.
pub open spec fn ymd_text(year: i32, month: u32, day: u32) -> Seq<char> {
    year_text(year as int) + seq!['-'] + zero_padded_spec(month as nat, 2) + seq!['-']
        + zero_padded_spec(day as nat, 2)
}

/// `NaiveDate::parse_from_str`: the date that `text` spells in `format`, as year, month and
/// day. The result is named by `chrono_parse_date`; a parsed date is always a valid one.
#[verifier::external_body]
pub(crate) fn parse_date(text: &str, format: &str) -> (r: Option<(i32, u32, u32)>)
    ensures
        r == chrono_parse_date(text@, format@),
        r matches Some((y, m, d)) ==> valid_date(y, m, d),
{
    chrono::NaiveDate::parse_from_str(text, format).ok().map(|date| (date.year(), date.month(), date.day()))
}

/// `NaiveDate::from_ymd_opt` followed by `format` in `%Y-%m-%d`, the one format passed here:
/// the year as `year_text`, month and day with two digits; `None` for an invalid date.
#[verifier::external_body]
pub(crate) fn format_date(year: i32, month: u32, day: u32, format: &str) -> (r: Option<String>)
    requires
        format@ == DATE_FORMAT@,
    ensures
        match r {
            Some(text) => chrono_format_date(year, month, day, format@) == Some(text@),
            None => chrono_format_date(year, month, day, format@) is None,
        },
        r is Some <==> valid_date(year, month, day),
        r matches Some(text) ==> text@ == ymd_text(year, month, day),
{
    chrono::NaiveDate::from_ymd_opt(year, month, day).map(|date| date.format(format).to_string())
}

/// The `%Y-%m-%d` text of the date that the trimmed `text` spells in `%Y-%m-%d`, if it spells
/// one.
pub open spec fn canonical_date_spec(text: Seq<char>) -> Option<Seq<char>> {
    match chrono_parse_date(trim_spec(text), DATE_FORMAT@) {
        Some((y, m, d)) => Some(ymd_text(y, m, d)),
        None => None,
    }
}

/// Parses the trimmed text as a `%Y-%m-%d` date and writes it back in that form.
pub fn canonical_date(text: &str) -> (r: Option<String>)
    ensures
        match r {
            Some(t) => canonical_date_spec(text@) == Some(t@),
            None => canonical_date_spec(text@) is None,
        },
{
    let trimmed = trim(text);
    match parse_date(trimmed.as_str(), DATE_FORMAT) {
        Some((y, m, d)) => format_date(y, m, d, DATE_FORMAT),
        None => None,
    }
}

} // verus!
