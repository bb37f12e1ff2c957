//! Calendar dates, held as day numbers of the proleptic Gregorian calendar.
//!
//! The calendar itself is chrono's. This module makes a date of a year,
//! month and day, reads one from a text, adds days and writes a date out,
//! each through one call into it.

use chrono::{Datelike, Days, NaiveDate, ParseError};
use vstd::prelude::*;

verus! {

/// Day number of the earliest date that chrono can hold, 1 January of the
/// year -262143. Day 1 is 1 January of the year 1.
pub const DAY_MIN: i32 = -95_746_129;

/// Day number of the latest date that chrono can hold, 31 December of the
/// year 262142.
pub const DAY_MAX: i32 = 95_745_399;

/// Whether `n` is the day number of a date that can be held.
pub open spec fn representable(n: int) -> bool {
    DAY_MIN <= n <= DAY_MAX
}

/// The day number that chrono gives to a year, month and day, or `None` where
/// it knows no such date. This is the Gregorian calendar as chrono computes
/// it; the library states nothing more of it than the range of its values.
pub uninterp spec fn civil_day_number(year: int, month: int, day: int) -> Option<int>;

/// The day number of the date that chrono reads from a text with the format
/// `%Y-%m-%d`, or `None` where it reads no date from it.
pub uninterp spec fn iso_day_number(text: Seq<char>) -> Option<int>;

/// The text that chrono writes for the date with a given day number: its
/// year, month and day, with hyphens between them.
pub uninterp spec fn date_text(days: int) -> Seq<char>;

/// A calendar date. Its view is its day number, counted from 1 January of the
/// year 1 as day 1.
#[derive(Clone, Copy, Debug, PartialEq, Eq, PartialOrd, Ord, Hash, Structural)]
pub struct Date {
    days: i32,
}

impl View for Date {
    type V = int;

    closed spec fn view(&self) -> int {
        self.days as int
    }
}

/// Calls chrono's `NaiveDate::from_ymd_opt` and reads the day number of the
/// date it made with `Datelike::num_days_from_ce`. Trusted: the result is the
/// value named `civil_day_number`, and a date that chrono makes lies between
/// `NaiveDate::MIN` and `NaiveDate::MAX`.
#[verifier::external_body]
fn ymd_day_number(year: i32, month: u32, day: u32) -> (r: Option<i32>)
    ensures
        civil_day_number(year as int, month as int, day as int) == match r {
            Some(n) => Some(n as int),
            None => None::<int>,
        },
        r matches Some(n) ==> representable(n as int),
{
    NaiveDate::from_ymd_opt(year, month, day).map(|d| d.num_days_from_ce())
}

/// Chrono's reason for reading no date from a text.
#[verifier::external_type_specification]
#[verifier::external_body]
pub struct ExParseError(ParseError);

/// Calls chrono's `NaiveDate::parse_from_str` with the format `%Y-%m-%d` and
/// reads the day number of the date it made with
/// `Datelike::num_days_from_ce`. Trusted: the result is the value named
/// `iso_day_number`, and a date that chrono makes lies between
/// `NaiveDate::MIN` and `NaiveDate::MAX`.
#[verifier::external_body]
fn parse_day_number(text: &str) -> (r: Result<i32, ParseError>)
    ensures
        iso_day_number(text@) == match r {
            Ok(n) => Some(n as int),
            Err(_) => None::<int>,
        },
        r matches Ok(n) ==> representable(n as int),
{
    NaiveDate::parse_from_str(text, "%Y-%m-%d").map(|d| d.num_days_from_ce())
}

/// Calls chrono's `NaiveDate::checked_add_days` on the date with day number
/// `days`. Trusted: chrono moves the date forward by `n` days, and gives
/// `None` exactly when that would pass `NaiveDate::MAX`.
#[verifier::external_body]
fn day_number_plus(days: i32, n: u64) -> (r: Option<i32>)
    requires
        representable(days as int),
    ensures
        r == if days + n <= DAY_MAX {
            Some((days + n) as i32)
        } else {
            None::<i32>
        },
{
    NaiveDate::from_num_days_from_ce_opt(days)?.checked_add_days(Days::new(n)).map(
        |d| d.num_days_from_ce(),
    )
}

/// Calls chrono's `NaiveDate::from_num_days_from_ce_opt` and writes the date
/// it made with chrono's `Display` for `NaiveDate`. Trusted: the result is
/// the value named `date_text`.
#[verifier::external_body]
fn day_number_text(days: i32) -> (r: String)
    requires
        representable(days as int),
    ensures
        r@ == date_text(days as int),
{
    match NaiveDate::from_num_days_from_ce_opt(days) {
        Some(date) => date.to_string(),
        None => String::new(),
    }
}

impl Date {
    #[verifier::type_invariant]
    spec fn in_range(self) -> bool {
        representable(self.days as int)
    }

    /// The date of a year, month and day, where the calendar has one.
    pub fn from_ymd_opt(year: i32, month: u32, day: u32) -> (r: Option<Date>)
        ensures
            civil_day_number(year as int, month as int, day as int) == match r {
                Some(d) => Some(d@),
                None => None::<int>,
            },
            r matches Some(d) ==> representable(d@),
    {
        match ymd_day_number(year, month, day) {
            Some(days) => Some(Date { days }),
            None => None,
        }
    }

    /// The date that chrono reads from a text with the format `%Y-%m-%d`, or
    /// chrono's reason for reading none.
    pub fn parse_iso(text: &str) -> (r: Result<Date, ParseError>)
        ensures
            iso_day_number(text@) == match r {
                Ok(d) => Some(d@),
                Err(_) => None::<int>,
            },
            r matches Ok(d) ==> representable(d@),
    {
        match parse_day_number(text) {
            Ok(days) => Ok(Date { days }),
            Err(e) => Err(e),
        }
    }

    /// The date with a given day number, where it can be held.
    pub fn from_num_days_from_ce_opt(days: i32) -> (r: Option<Date>)
        ensures
            r is Some <==> representable(days as int),
            r matches Some(d) ==> d@ == days,
    {
        if DAY_MIN <= days && days <= DAY_MAX {
            Some(Date { days })
        } else {
            None
        }
    }

    /// The day number of this date.
    pub fn num_days_from_ce(&self) -> (n: i32)
        ensures
            n == self@,
            representable(self@),
    {
        proof {
            use_type_invariant(self);
        }
        self.days
    }

    /// The date `n` days after this one, or `None` where that date is later
    /// than the latest that can be held.
    pub fn checked_add_days(&self, n: u64) -> (r: Option<Date>)
        ensures
            representable(self@),
            r is Some <==> self@ + n <= DAY_MAX,
            r matches Some(d) ==> d@ == self@ + n,
    {
        proof {
            use_type_invariant(self);
        }
        match day_number_plus(self.days, n) {
            Some(days) => Some(Date { days }),
            None => None,
        }
    }

    /// The date as text: year, month and day.
    pub fn to_string(&self) -> (text: String)
        ensures
            text@ == date_text(self@),
    {
        proof {
            use_type_invariant(self);
        }
        day_number_text(self.days)
    }

    /// Whether this date is `other` or a later one.
    pub fn is_on_or_after(&self, other: &Date) -> (r: bool)
        ensures
            r == (self@ >= other@),
    {
        self.days >= other.days
    }
}

/// Two dates with the same day number are the same date.
pub proof fn date_of_day_number_is_unique(a: Date, b: Date)
    requires
        a@ == b@,
    ensures
        a == b,
{
}

} // verus!
