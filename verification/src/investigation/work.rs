//! The work the sounding belongs to, carried by the `TY` record.

use vstd::prelude::*;

use crate::parse_result::{ParseResult, ParseResultV};

verus! {

#[derive(Clone, Debug, PartialEq)]
pub struct Work {
    pub id: ParseResult<String>,
    pub name: ParseResult<String>,
}

#[verifier::ext_equal]
pub struct WorkV {
    pub id: ParseResultV<Seq<char>>,
    pub name: ParseResultV<Seq<char>>,
}

impl DeepView for Work {
    type V = WorkV;

    open spec fn deep_view(&self) -> WorkV {
        WorkV { id: self.id.deep_view(), name: self.name.deep_view() }
    }
}

pub open spec fn spec_work_empty() -> WorkV {
    WorkV { id: ParseResultV::Missing, name: ParseResultV::Missing }
}

impl Default for Work {
    fn default() -> (r: Work)
        ensures
            r.deep_view() == spec_work_empty(),
    {
        Work { id: ParseResult::Missing, name: ParseResult::Missing }
    }
}

} // verus!
