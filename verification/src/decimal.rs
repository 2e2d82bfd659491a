//! Fixed-point decimal values.
//!
//! The format writes decimal numbers with `.` or `,` as the separator.  The
//! library stores them exactly, in millionths of the unit: up to twelve
//! integer digits and the first six fractional digits are kept.  Tokens
//! beyond those bounds are treated as undecodable.

use vstd::prelude::*;

use crate::num;
use crate::parse_result::TryParse;
use crate::text;

verus! {

/// A decimal number in millionths of its unit: `2.5` is `micro == 2_500_000`.
#[derive(Clone, Copy, Debug, PartialEq, Eq, Structural)]
pub struct Decimal {
    pub micro: i64,
}

impl DeepView for Decimal {
    type V = int;

    open spec fn deep_view(&self) -> int {
        self.micro as int
    }
}

impl Decimal {
    /// The value holding `micro` millionths.
    pub fn from_micro(micro: i64) -> (r: Decimal)
        ensures
            r.micro == micro,
    {
        Decimal { micro }
    }
}

impl TryParse for Decimal {
    open spec fn parse_spec(s: Seq<char>) -> Option<int> {
        num::spec_decimal_micro(s)
    }

    fn try_parse(input: &str) -> (r: Result<Self, String>)
        ensures
            match r {
                Ok(v) => Self::parse_spec(input@) == Some(v.deep_view()),
                Err(e) => Self::parse_spec(input@) is None && e@ == input@,
            },
    {
        let chars = text::to_chars(input);
        match num::decimal_micro_chars(&chars) {
            Some(micro) => Ok(Decimal { micro }),
            None => Err(String::from_str(input)),
        }
    }
}

} // verus!
