//! One depth- or elevation-tagged sample within an investigation: its
//! method-specific measurement columns plus the shared annotation envelope
//! that later lines append to.

pub mod lab_results;
pub mod observation_values;

use vstd::prelude::*;

use crate::parse_result::{ParseResult, ParseResultV};
use observation_values::{ObservationValues, ObservationValuesV};

verus! {

#[derive(Clone, Debug, PartialEq)]
pub struct Observation {
    pub values: ObservationValues,
    pub notes: Vec<ParseResult<String>>,
    pub free_text: Vec<ParseResult<String>>,
    pub hidden_text: Vec<ParseResult<String>>,
    pub unofficial_soil_type: Vec<ParseResult<String>>,
    pub water_observed: ParseResult<String>,
}

#[verifier::ext_equal]
pub struct ObservationV {
    pub values: ObservationValuesV,
    pub notes: Seq<ParseResultV<Seq<char>>>,
    pub free_text: Seq<ParseResultV<Seq<char>>>,
    pub hidden_text: Seq<ParseResultV<Seq<char>>>,
    pub unofficial_soil_type: Seq<ParseResultV<Seq<char>>>,
    pub water_observed: ParseResultV<Seq<char>>,
}

impl DeepView for Observation {
    type V = ObservationV;

    open spec fn deep_view(&self) -> ObservationV {
        ObservationV {
            values: self.values.deep_view(),
            notes: self.notes.deep_view(),
            free_text: self.free_text.deep_view(),
            hidden_text: self.hidden_text.deep_view(),
            unofficial_soil_type: self.unofficial_soil_type.deep_view(),
            water_observed: self.water_observed.deep_view(),
        }
    }
}

/// A fresh observation carrying `values` and an empty annotation envelope.
pub open spec fn spec_observation_with(values: ObservationValuesV) -> ObservationV {
    ObservationV {
        values,
        notes: Seq::empty(),
        free_text: Seq::empty(),
        hidden_text: Seq::empty(),
        unofficial_soil_type: Seq::empty(),
        water_observed: ParseResultV::Missing,
    }
}

impl Observation {
    /// An empty observation: no measurement data, empty annotation envelope.
    pub fn new() -> (r: Self)
        ensures
            r.deep_view() == spec_observation_with(ObservationValuesV::Unknown),
    {
        Observation::with_values(ObservationValues::Unknown)
    }

    /// A fresh observation around the given measurement data.
    pub fn with_values(values: ObservationValues) -> (r: Self)
        ensures
            r.deep_view() == spec_observation_with(values.deep_view()),
    {
        let r = Observation {
            values,
            notes: Vec::new(),
            free_text: Vec::new(),
            hidden_text: Vec::new(),
            unofficial_soil_type: Vec::new(),
            water_observed: ParseResult::Missing,
        };
        proof {
            assert(r.notes.deep_view() =~= Seq::<ParseResultV<Seq<char>>>::empty());
            assert(r.free_text.deep_view() =~= Seq::<ParseResultV<Seq<char>>>::empty());
            assert(r.hidden_text.deep_view() =~= Seq::<ParseResultV<Seq<char>>>::empty());
            assert(r.unofficial_soil_type.deep_view() =~= Seq::<ParseResultV<Seq<char>>>::empty());
            assert(r.deep_view() =~= spec_observation_with(r.values.deep_view()));
        }
        r
    }
}

} // verus!
