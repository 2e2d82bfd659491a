//! The standpipe installed in a sounding, accumulated from the `ZP`, `TP`,
//! and `LP` records.

use vstd::prelude::*;

use crate::decimal::Decimal;
use crate::parse_result::{ParseResult, ParseResultV};

verus! {

#[derive(Clone, Debug, PartialEq)]
pub struct Standpipe {
    pub top_elevation: ParseResult<Decimal>,
    pub ground_elevation: ParseResult<Decimal>,
    pub protection_top_elevation: ParseResult<Decimal>,
    pub cover_elevation: ParseResult<Decimal>,
    pub sieve_bottom_elevation: ParseResult<Decimal>,
    pub upper_structure: ParseResult<String>,
    pub sieve_length: ParseResult<Decimal>,
    pub sieve_type: ParseResult<String>,
    pub diameter: ParseResult<Decimal>,
    pub material: ParseResult<String>,
    pub measure_point: ParseResult<String>,
    pub details: ParseResult<String>,
    pub locked: ParseResult<String>,
    pub lock_owner: ParseResult<String>,
    pub installer: ParseResult<String>,
}

#[verifier::ext_equal]
pub struct StandpipeV {
    pub top_elevation: ParseResultV<int>,
    pub ground_elevation: ParseResultV<int>,
    pub protection_top_elevation: ParseResultV<int>,
    pub cover_elevation: ParseResultV<int>,
    pub sieve_bottom_elevation: ParseResultV<int>,
    pub upper_structure: ParseResultV<Seq<char>>,
    pub sieve_length: ParseResultV<int>,
    pub sieve_type: ParseResultV<Seq<char>>,
    pub diameter: ParseResultV<int>,
    pub material: ParseResultV<Seq<char>>,
    pub measure_point: ParseResultV<Seq<char>>,
    pub details: ParseResultV<Seq<char>>,
    pub locked: ParseResultV<Seq<char>>,
    pub lock_owner: ParseResultV<Seq<char>>,
    pub installer: ParseResultV<Seq<char>>,
}

impl DeepView for Standpipe {
    type V = StandpipeV;

    open spec fn deep_view(&self) -> StandpipeV {
        StandpipeV {
            top_elevation: self.top_elevation.deep_view(),
            ground_elevation: self.ground_elevation.deep_view(),
            protection_top_elevation: self.protection_top_elevation.deep_view(),
            cover_elevation: self.cover_elevation.deep_view(),
            sieve_bottom_elevation: self.sieve_bottom_elevation.deep_view(),
            upper_structure: self.upper_structure.deep_view(),
            sieve_length: self.sieve_length.deep_view(),
            sieve_type: self.sieve_type.deep_view(),
            diameter: self.diameter.deep_view(),
            material: self.material.deep_view(),
            measure_point: self.measure_point.deep_view(),
            details: self.details.deep_view(),
            locked: self.locked.deep_view(),
            lock_owner: self.lock_owner.deep_view(),
            installer: self.installer.deep_view(),
        }
    }
}

pub open spec fn spec_standpipe_empty() -> StandpipeV {
    StandpipeV {
        top_elevation: ParseResultV::Missing,
        ground_elevation: ParseResultV::Missing,
        protection_top_elevation: ParseResultV::Missing,
        cover_elevation: ParseResultV::Missing,
        sieve_bottom_elevation: ParseResultV::Missing,
        upper_structure: ParseResultV::Missing,
        sieve_length: ParseResultV::Missing,
        sieve_type: ParseResultV::Missing,
        diameter: ParseResultV::Missing,
        material: ParseResultV::Missing,
        measure_point: ParseResultV::Missing,
        details: ParseResultV::Missing,
        locked: ParseResultV::Missing,
        lock_owner: ParseResultV::Missing,
        installer: ParseResultV::Missing,
    }
}

impl Default for Standpipe {
    fn default() -> (r: Standpipe)
        ensures
            r.deep_view() == spec_standpipe_empty(),
    {
        Standpipe {
            top_elevation: ParseResult::Missing,
            ground_elevation: ParseResult::Missing,
            protection_top_elevation: ParseResult::Missing,
            cover_elevation: ParseResult::Missing,
            sieve_bottom_elevation: ParseResult::Missing,
            upper_structure: ParseResult::Missing,
            sieve_length: ParseResult::Missing,
            sieve_type: ParseResult::Missing,
            diameter: ParseResult::Missing,
            material: ParseResult::Missing,
            measure_point: ParseResult::Missing,
            details: ParseResult::Missing,
            locked: ParseResult::Missing,
            lock_owner: ParseResult::Missing,
            installer: ParseResult::Missing,
        }
    }
}

} // verus!
