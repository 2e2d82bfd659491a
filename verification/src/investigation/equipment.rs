//! The sounding equipment description, carried by the `LA` record.

use vstd::prelude::*;

use crate::parse_result::{ParseResult, ParseResultV};

verus! {

#[derive(Clone, Debug, PartialEq)]
pub struct Equipment {
    pub number: ParseResult<i32>,
    pub description: ParseResult<String>,
    pub cone_size: ParseResult<String>,
}

#[verifier::ext_equal]
pub struct EquipmentV {
    pub number: ParseResultV<i32>,
    pub description: ParseResultV<Seq<char>>,
    pub cone_size: ParseResultV<Seq<char>>,
}

impl DeepView for Equipment {
    type V = EquipmentV;

    open spec fn deep_view(&self) -> EquipmentV {
        EquipmentV {
            number: self.number.deep_view(),
            description: self.description.deep_view(),
            cone_size: self.cone_size.deep_view(),
        }
    }
}

pub open spec fn spec_equipment_empty() -> EquipmentV {
    EquipmentV {
        number: ParseResultV::Missing,
        description: ParseResultV::Missing,
        cone_size: ParseResultV::Missing,
    }
}

impl Default for Equipment {
    fn default() -> (r: Equipment)
        ensures
            r.deep_view() == spec_equipment_empty(),
    {
        Equipment {
            number: ParseResult::Missing,
            description: ParseResult::Missing,
            cone_size: ParseResult::Missing,
        }
    }
}

} // verus!
