//! The measuring-line reference of a sounding, carried by the `LN` record.

use vstd::prelude::*;

use crate::decimal::Decimal;
use crate::parse_result::{ParseResult, ParseResultV};

verus! {

#[derive(Clone, Debug, PartialEq)]
pub struct Line {
    pub name: ParseResult<String>,
    pub stake: ParseResult<Decimal>,
    pub distance: ParseResult<Decimal>,
}

#[verifier::ext_equal]
pub struct LineV {
    pub name: ParseResultV<Seq<char>>,
    pub stake: ParseResultV<int>,
    pub distance: ParseResultV<int>,
}

impl DeepView for Line {
    type V = LineV;

    open spec fn deep_view(&self) -> LineV {
        LineV {
            name: self.name.deep_view(),
            stake: self.stake.deep_view(),
            distance: self.distance.deep_view(),
        }
    }
}

pub open spec fn spec_line_empty() -> LineV {
    LineV {
        name: ParseResultV::Missing,
        stake: ParseResultV::Missing,
        distance: ParseResultV::Missing,
    }
}

impl Default for Line {
    fn default() -> (r: Line)
        ensures
            r.deep_view() == spec_line_empty(),
    {
        Line {
            name: ParseResult::Missing,
            stake: ParseResult::Missing,
            distance: ParseResult::Missing,
        }
    }
}

} // verus!
