//! The organisations behind a sounding: the owner (`OM` record) and the
//! investigator (`OR` record).

use vstd::prelude::*;

use crate::parse_result::{ParseResult, ParseResultV};

verus! {

#[derive(Clone, Debug, PartialEq)]
pub struct Organisations {
    pub owner_name: ParseResult<String>,
    pub investigator_name: ParseResult<String>,
}

#[verifier::ext_equal]
pub struct OrganisationsV {
    pub owner_name: ParseResultV<Seq<char>>,
    pub investigator_name: ParseResultV<Seq<char>>,
}

impl DeepView for Organisations {
    type V = OrganisationsV;

    open spec fn deep_view(&self) -> OrganisationsV {
        OrganisationsV {
            owner_name: self.owner_name.deep_view(),
            investigator_name: self.investigator_name.deep_view(),
        }
    }
}

pub open spec fn spec_organisations_empty() -> OrganisationsV {
    OrganisationsV {
        owner_name: ParseResultV::Missing,
        investigator_name: ParseResultV::Missing,
    }
}

impl Default for Organisations {
    fn default() -> (r: Organisations)
        ensures
            r.deep_view() == spec_organisations_empty(),
    {
        Organisations {
            owner_name: ParseResult::Missing,
            investigator_name: ParseResult::Missing,
        }
    }
}

} // verus!
