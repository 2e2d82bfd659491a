//! Laboratory sub-results attached to sample observations: a grain-size
//! sieve point (`RK` record), a water content, or a free attribute/value
//! pair with a unit (`LB` record).

use vstd::prelude::*;

use crate::decimal::Decimal;
use crate::parse_result::{ParseResult, ParseResultV};

verus! {

#[derive(Clone, Debug, PartialEq)]
pub enum LabResult {
    Unknown,
    GrainSize { grain_mm: ParseResult<Decimal>, pass_percent: ParseResult<Decimal> },
    WaterContent { water_content: ParseResult<Decimal> },
    Other {
        attribute: ParseResult<String>,
        result: ParseResult<String>,
        unit: ParseResult<String>,
    },
}

#[verifier::ext_equal]
pub enum LabResultV {
    Unknown,
    GrainSize { grain_mm: ParseResultV<int>, pass_percent: ParseResultV<int> },
    WaterContent { water_content: ParseResultV<int> },
    Other {
        attribute: ParseResultV<Seq<char>>,
        result: ParseResultV<Seq<char>>,
        unit: ParseResultV<Seq<char>>,
    },
}

impl DeepView for LabResult {
    type V = LabResultV;

    open spec fn deep_view(&self) -> LabResultV {
        match self {
            LabResult::Unknown => LabResultV::Unknown,
            LabResult::GrainSize { grain_mm, pass_percent } => LabResultV::GrainSize {
                grain_mm: grain_mm.deep_view(),
                pass_percent: pass_percent.deep_view(),
            },
            LabResult::WaterContent { water_content } => LabResultV::WaterContent {
                water_content: water_content.deep_view(),
            },
            LabResult::Other { attribute, result, unit } => LabResultV::Other {
                attribute: attribute.deep_view(),
                result: result.deep_view(),
                unit: unit.deep_view(),
            },
        }
    }
}

} // verus!
