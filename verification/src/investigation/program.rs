//! The investigation programme, carried by the `GR` record, with its guide
//! lines accumulated from `GL` records.

use vstd::prelude::*;

use crate::date::Date;
use crate::parse_result::{ParseResult, ParseResultV};

verus! {

#[derive(Clone, Debug, PartialEq)]
pub struct Program {
    pub name: ParseResult<String>,
    pub date: ParseResult<Date>,
    pub author: ParseResult<String>,
    pub guide: Vec<ParseResult<String>>,
}

#[verifier::ext_equal]
pub struct ProgramV {
    pub name: ParseResultV<Seq<char>>,
    pub date: ParseResultV<Date>,
    pub author: ParseResultV<Seq<char>>,
    pub guide: Seq<ParseResultV<Seq<char>>>,
}

impl DeepView for Program {
    type V = ProgramV;

    open spec fn deep_view(&self) -> ProgramV {
        ProgramV {
            name: self.name.deep_view(),
            date: self.date.deep_view(),
            author: self.author.deep_view(),
            guide: self.guide.deep_view(),
        }
    }
}

pub open spec fn spec_program_empty() -> ProgramV {
    ProgramV {
        name: ParseResultV::Missing,
        date: ParseResultV::Missing,
        author: ParseResultV::Missing,
        guide: Seq::empty(),
    }
}

impl Default for Program {
    fn default() -> (r: Program)
        ensures
            r.deep_view() == spec_program_empty(),
    {
        let r = Program {
            name: ParseResult::Missing,
            date: ParseResult::Missing,
            author: ParseResult::Missing,
            guide: Vec::new(),
        };
        proof {
            assert(r.deep_view().guide =~= Seq::<ParseResultV<Seq<char>>>::empty());
            assert(r.deep_view() =~= spec_program_empty());
        }
        r
    }
}

} // verus!
