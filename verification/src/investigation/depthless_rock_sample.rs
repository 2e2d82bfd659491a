//! The attribute/value pair of a rock sample without a depth, carried by the
//! `AT` record.

use vstd::prelude::*;

use crate::parse_result::{ParseResult, ParseResultV};

verus! {

#[derive(Clone, Debug, PartialEq)]
pub struct DepthlessRockSample {
    pub attribute: ParseResult<String>,
    pub value: ParseResult<String>,
}

#[verifier::ext_equal]
pub struct DepthlessRockSampleV {
    pub attribute: ParseResultV<Seq<char>>,
    pub value: ParseResultV<Seq<char>>,
}

impl DeepView for DepthlessRockSample {
    type V = DepthlessRockSampleV;

    open spec fn deep_view(&self) -> DepthlessRockSampleV {
        DepthlessRockSampleV {
            attribute: self.attribute.deep_view(),
            value: self.value.deep_view(),
        }
    }
}

pub open spec fn spec_depthless_rock_sample_empty() -> DepthlessRockSampleV {
    DepthlessRockSampleV { attribute: ParseResultV::Missing, value: ParseResultV::Missing }
}

impl Default for DepthlessRockSample {
    fn default() -> (r: DepthlessRockSample)
        ensures
            r.deep_view() == spec_depthless_rock_sample_empty(),
    {
        DepthlessRockSample { attribute: ParseResult::Missing, value: ParseResult::Missing }
    }
}

} // verus!
