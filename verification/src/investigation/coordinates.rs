//! The coordinate fix of a sounding, carried by the `XY` record.

use vstd::prelude::*;

use crate::date::Date;
use crate::decimal::Decimal;
use crate::parse_result::{ParseResult, ParseResultV};

verus! {

#[derive(Clone, Debug, PartialEq)]
pub struct Coordinates {
    pub x: ParseResult<Decimal>,
    pub y: ParseResult<Decimal>,
    pub start_elevation: ParseResult<Decimal>,
    pub date: ParseResult<Date>,
    pub point_id: ParseResult<String>,
}

#[verifier::ext_equal]
pub struct CoordinatesV {
    pub x: ParseResultV<int>,
    pub y: ParseResultV<int>,
    pub start_elevation: ParseResultV<int>,
    pub date: ParseResultV<Date>,
    pub point_id: ParseResultV<Seq<char>>,
}

impl DeepView for Coordinates {
    type V = CoordinatesV;

    open spec fn deep_view(&self) -> CoordinatesV {
        CoordinatesV {
            x: self.x.deep_view(),
            y: self.y.deep_view(),
            start_elevation: self.start_elevation.deep_view(),
            date: self.date.deep_view(),
            point_id: self.point_id.deep_view(),
        }
    }
}

pub open spec fn spec_coordinates_empty() -> CoordinatesV {
    CoordinatesV {
        x: ParseResultV::Missing,
        y: ParseResultV::Missing,
        start_elevation: ParseResultV::Missing,
        date: ParseResultV::Missing,
        point_id: ParseResultV::Missing,
    }
}

impl Default for Coordinates {
    fn default() -> (r: Coordinates)
        ensures
            r.deep_view() == spec_coordinates_empty(),
    {
        Coordinates {
            x: ParseResult::Missing,
            y: ParseResult::Missing,
            start_elevation: ParseResult::Missing,
            date: ParseResult::Missing,
            point_id: ParseResult::Missing,
        }
    }
}

} // verus!
