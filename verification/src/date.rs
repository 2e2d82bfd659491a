//! Calendar dates, written in the format as the eight digits `ddMMyyyy`.
//!
//! The calendar itself (month lengths, leap years) is chrono's business; the
//! library holds the outcome as plain year, month, and day numbers.  The
//! all-zero token `"00000000"` is the format's "unknown date" marker and is
//! treated as undecodable before chrono is asked.

use vstd::prelude::*;

use chrono::Datelike;

use crate::parse_result::TryParse;
use crate::text;

verus! {

/// A calendar date as chrono validated it.
#[derive(Clone, Copy, Debug, PartialEq, Eq, Structural)]
pub struct Date {
    pub year: i32,
    pub month: u8,
    pub day: u8,
}

impl DeepView for Date {
    type V = Date;

    open spec fn deep_view(&self) -> Date {
        *self
    }
}

/// The date that chrono reads from a `ddMMyyyy` token, as (year, month,
/// day), or `None` where the token is not such a date.  The result depends
/// on the token alone.
pub uninterp spec fn compact_date_of(s: Seq<char>) -> Option<(int, int, int)>;

/// Relies on chrono's `NaiveDate::parse_from_str` with the fixed layout
/// `"%d%m%Y"` (day, month, four-digit year, nothing else), and on chrono's
/// `Datelike` accessors: a parsed `NaiveDate` is a valid calendar date, so
/// its month is 1 to 12 and its day 1 to 31.
#[verifier::external_body]
fn chrono_compact_date(input: &str) -> (r: Option<Date>)
    ensures
        r is Some <==> compact_date_of(input@) is Some,
        r is Some ==> {
            let (y, m, d) = compact_date_of(input@)->Some_0;
            &&& r->Some_0.year as int == y
            &&& r->Some_0.month as int == m
            &&& r->Some_0.day as int == d
            &&& 1 <= m <= 12
            &&& 1 <= d <= 31
        },
{
    match chrono::NaiveDate::parse_from_str(input, "%d%m%Y") {
        Ok(date) => Some(
            Date { year: date.year(), month: date.month() as u8, day: date.day() as u8 },
        ),
        Err(_) => None,
    }
}

impl TryParse for Date {
    open spec fn parse_spec(s: Seq<char>) -> Option<Date> {
        if s == "00000000"@ {
            None
        } else {
            match compact_date_of(s) {
                Some((y, m, d)) => Some(Date { year: y as i32, month: m as u8, day: d as u8 }),
                None => None,
            }
        }
    }

    fn try_parse(input: &str) -> (r: Result<Self, String>)
        ensures
            match r {
                Ok(v) => Self::parse_spec(input@) == Some(v.deep_view()),
                Err(e) => Self::parse_spec(input@) is None && e@ == input@,
            },
    {
        if text::str_eq(input, "00000000") {
            return Err(String::from_str(input));
        }
        match chrono_compact_date(input) {
            Some(date) => Ok(date),
            None => Err(String::from_str(input)),
        }
    }
}

} // verus!
