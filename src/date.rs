//! Calendar dates, read from `YYYY-MM-DD` text by chrono.
use chrono::Datelike;
use vstd::prelude::*;

verus! {

/// A proleptic Gregorian calendar date.
#[derive(Clone, Copy, Debug, PartialEq, Eq, Structural)]
pub struct Date {
    pub year: i32,
    pub month: u32,
    pub day: u32,
}

pub open spec fn is_leap_year(y: int) -> bool {
    (y % 4 == 0 && y % 100 != 0) || y % 400 == 0
}

pub open spec fn days_in_month(y: int, m: int) -> int {
    if m == 2 {
        if is_leap_year(y) {
            29
        } else {
            28
        }
    } else if m == 4 || m == 6 || m == 9 || m == 11 {
        30
    } else {
        31
    }
}

impl Date {
    /// A real day of the calendar, in the span of years chrono represents.
    pub open spec fn is_valid(self) -> bool {
        &&& -262143 <= self.year <= 262142
        &&& 1 <= self.month <= 12
        &&& 1 <= self.day <= days_in_month(self.year as int, self.month as int)
    }
}

/// The date that chrono reads from a text, if it reads one.
pub uninterp spec fn calendar_date(s: Seq<char>) -> Option<Date>;

/// Relies on chrono's `FromStr for NaiveDate` (the parser chrono's own serde
/// support uses for dates): the result depends on the text alone, and every
/// `NaiveDate` is a valid date within chrono's year range.
#[verifier::external_body]
pub(crate) fn read_date(s: &str) -> (r: Option<Date>)
    ensures
        r == calendar_date(s@),
        r matches Some(d) ==> d.is_valid(),
{
    match s.parse::<chrono::NaiveDate>() {
        Ok(d) => Some(Date { year: d.year(), month: d.month(), day: d.day() }),
        Err(_) => None,
    }
}

} // verus!
