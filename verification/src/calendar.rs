//! Calendar days, held as day numbers of the proleptic Gregorian calendar.
//!
//! The calendar itself is `chrono`'s: which year, month and day a number
//! stands for, how a day is read from a text and how it is written. What
//! this module adds is the order of days and the bounds within which a day
//! number stands for a date.

use vstd::prelude::*;

verus! {

/// Number of the first day that has a date: 1 January of the year -262143.
pub const MIN_DAY: i32 = -95_746_129;

/// Number of the last day that has a date: 31 December of the year 262142.
pub const MAX_DAY: i32 = 95_745_399;

/// The layout `YYYY-MM-DD`, in which days are written.
pub const ISO_DATE: &'static str = "%Y-%m-%d";

/// The day number that `chrono` reads from `text` laid out as `format` says,
/// or `None` where it reads no date from it.
pub uninterp spec fn date_parsed(text: Seq<char>, format: Seq<char>) -> Option<int>;

/// What `chrono` writes for the day numbered `day` in the layout `format`.
pub uninterp spec fn date_formatted(day: int, format: Seq<char>) -> Seq<char>;

/// The day number of the given year, month and day of the month, or `None`
/// where the calendar has no such date.
pub uninterp spec fn civil_day(year: int, month: int, day: int) -> Option<int>;

/// A calendar day. Day 1 is 1 January of the year 1, and each following
/// calendar day has the next number.
#[derive(Clone, Copy, Debug, PartialEq, Eq, Structural, PartialOrd, Ord, Hash)]
pub struct Date {
    days: i32,
}

impl View for Date {
    type V = int;

    /// The day number.
    closed spec fn view(&self) -> int {
        self.days as int
    }
}

/// Calls `chrono::NaiveDate::parse_from_str` and takes the day number of
/// the date it returns (`Datelike::num_days_from_ce`). Trusted: the result
/// is `date_parsed` of the two texts, and a date's day number lies between
/// those of `NaiveDate::MIN` and `NaiveDate::MAX`.
#[verifier::external_body]
fn chrono_parse(text: &str, format: &str) -> (day: Option<i32>)
    ensures
        day matches Some(d) ==> MIN_DAY <= d <= MAX_DAY && date_parsed(text@, format@) == Some(
            d as int,
        ),
        day is None ==> date_parsed(text@, format@) is None,
{
    match chrono::NaiveDate::parse_from_str(text, format) {
        Ok(date) => Some(chrono::Datelike::num_days_from_ce(&date)),
        Err(_) => None,
    }
}

/// Calls `chrono::NaiveDate::from_ymd_opt` and takes the day number of the
/// date it returns. Trusted: the result is `civil_day` of the arguments, and
/// a date's day number lies between those of `NaiveDate::MIN` and
/// `NaiveDate::MAX`.
#[verifier::external_body]
fn chrono_from_ymd(year: i32, month: u32, day: u32) -> (days: Option<i32>)
    ensures
        days matches Some(d) ==> MIN_DAY <= d <= MAX_DAY && civil_day(
            year as int,
            month as int,
            day as int,
        ) == Some(d as int),
        days is None ==> civil_day(year as int, month as int, day as int) is None,
{
    match chrono::NaiveDate::from_ymd_opt(year, month, day) {
        Some(date) => Some(chrono::Datelike::num_days_from_ce(&date)),
        None => None,
    }
}

/// Calls `chrono::NaiveDate::from_num_days_from_ce_opt` and
/// `NaiveDate::format` on the date it returns. Trusted: every day number
/// from `MIN_DAY` to `MAX_DAY` has a date, `ISO_DATE` is a layout that
/// `chrono` accepts, and the text written is `date_formatted` of the
/// arguments.
#[verifier::external_body]
fn chrono_format(day: i32, format: &str) -> (text: String)
    requires
        MIN_DAY <= day <= MAX_DAY,
        format@ == ISO_DATE@,
    ensures
        text@ == date_formatted(day as int, format@),
{
    match chrono::NaiveDate::from_num_days_from_ce_opt(day) {
        Some(date) => date.format(format).to_string(),
        None => String::new(),
    }
}

impl Date {
    #[verifier::type_invariant]
    spec fn in_range(self) -> bool {
        MIN_DAY <= self.days <= MAX_DAY
    }

    /// The day with the given number, where there is one.
    pub fn from_days(days: i32) -> (date: Option<Date>)
        ensures
            date is Some <==> MIN_DAY <= days <= MAX_DAY,
            date matches Some(d) ==> d@ == days,
    {
        if MIN_DAY <= days && days <= MAX_DAY {
            Some(Date { days })
        } else {
            None
        }
    }

    /// The day of the given year, month and day of the month, where the
    /// calendar has one.
    pub fn from_ymd(year: i32, month: u32, day: u32) -> (date: Option<Date>)
        ensures
            date is Some <==> civil_day(year as int, month as int, day as int) is Some,
            date matches Some(d) ==> civil_day(year as int, month as int, day as int) == Some(d@),
    {
        match chrono_from_ymd(year, month, day) {
            Some(days) => Some(Date { days }),
            None => None,
        }
    }

    /// The day that `text` names when read in the layout `format`, where it
    /// names one. A time of day and an offset in the text are read and left
    /// out of the result.
    pub fn parse_from_str(text: &str, format: &str) -> (date: Option<Date>)
        ensures
            date is Some <==> date_parsed(text@, format@) is Some,
            date matches Some(d) ==> date_parsed(text@, format@) == Some(d@),
    {
        match chrono_parse(text, format) {
            Some(days) => Some(Date { days }),
            None => None,
        }
    }

    /// The day number.
    pub fn days(&self) -> (days: i32)
        ensures
            days == self@,
            MIN_DAY <= days <= MAX_DAY,
    {
        proof {
            use_type_invariant(self);
        }
        self.days
    }

    /// The day written as `YYYY-MM-DD`.
    pub fn to_iso_text(&self) -> (text: String)
        ensures
            text@ == date_formatted(self@, ISO_DATE@),
    {
        proof {
            use_type_invariant(self);
        }
        chrono_format(self.days, ISO_DATE)
    }

    /// Whether this day is `start`, `end` or a day between them.
    pub fn is_between(&self, start: &Date, end: &Date) -> (between: bool)
        ensures
            between == (start@ <= self@ <= end@),
    {
        start.days <= self.days && self.days <= end.days
    }

    /// Two dates are the same value exactly when they have the same day
    /// number.
    pub proof fn lemma_equal_by_day(a: Date, b: Date)
        ensures
            (a == b) <==> (a@ == b@),
    {
    }
}

} // verus!
