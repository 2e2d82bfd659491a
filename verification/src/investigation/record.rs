//! Who drilled, inspected, and digitized the record, carried by the `PK`
//! record.

use vstd::prelude::*;

use crate::parse_result::{DisplayText, ParseResult, ParseResultV, TryParse};

verus! {

#[derive(Clone, Debug, PartialEq)]
pub struct Record {
    pub number: ParseResult<i32>,
    pub driller: ParseResult<String>,
    pub inspector: ParseResult<String>,
    pub processor: ParseResult<String>,
    pub digitalized: ParseResult<Digitized>,
    pub condition: ParseResult<String>,
}

#[verifier::ext_equal]
pub struct RecordV {
    pub number: ParseResultV<i32>,
    pub driller: ParseResultV<Seq<char>>,
    pub inspector: ParseResultV<Seq<char>>,
    pub processor: ParseResultV<Seq<char>>,
    pub digitalized: ParseResultV<Digitized>,
    pub condition: ParseResultV<Seq<char>>,
}

impl DeepView for Record {
    type V = RecordV;

    open spec fn deep_view(&self) -> RecordV {
        RecordV {
            number: self.number.deep_view(),
            driller: self.driller.deep_view(),
            inspector: self.inspector.deep_view(),
            processor: self.processor.deep_view(),
            digitalized: self.digitalized.deep_view(),
            condition: self.condition.deep_view(),
        }
    }
}

pub open spec fn spec_record_empty() -> RecordV {
    RecordV {
        number: ParseResultV::Missing,
        driller: ParseResultV::Missing,
        inspector: ParseResultV::Missing,
        processor: ParseResultV::Missing,
        digitalized: ParseResultV::Missing,
        condition: ParseResultV::Missing,
    }
}

impl Default for Record {
    fn default() -> (r: Record)
        ensures
            r.deep_view() == spec_record_empty(),
    {
        Record {
            number: ParseResult::Missing,
            driller: ParseResult::Missing,
            inspector: ParseResult::Missing,
            processor: ParseResult::Missing,
            digitalized: ParseResult::Missing,
            condition: ParseResult::Missing,
        }
    }
}

/// Whether the record was digitized from a paper original: the token `"D"`
/// and nothing else means yes, and the decode never fails.
#[derive(Clone, Copy, Debug, PartialEq, Eq, Hash, Structural)]
pub enum Digitized {
    No,
    Yes,
}

impl DeepView for Digitized {
    type V = Digitized;

    open spec fn deep_view(&self) -> Digitized {
        *self
    }
}

impl TryParse for Digitized {
    open spec fn parse_spec(s: Seq<char>) -> Option<Digitized> {
        if s == "D"@ {
            Some(Digitized::Yes)
        } else {
            Some(Digitized::No)
        }
    }

    fn try_parse(input: &str) -> (r: Result<Self, String>)
        ensures
            match r {
                Ok(v) => Self::parse_spec(input@) == Some(v.deep_view()),
                Err(e) => Self::parse_spec(input@) is None && e@ == input@,
            },
    {
        if crate::text::str_eq(input, "D") {
            Ok(Digitized::Yes)
        } else {
            Ok(Digitized::No)
        }
    }
}

impl DisplayText for Digitized {
    open spec fn spec_text(&self) -> Seq<char> {
        match self {
            Digitized::No => "Not digitized"@,
            Digitized::Yes => "Digitized"@,
        }
    }

    fn display_text(&self) -> (r: String)
        ensures
            r@ == self.spec_text(),
    {
        match self {
            Digitized::No => String::from_str("Not digitized"),
            Digitized::Yes => String::from_str("Digitized"),
        }
    }
}

} // verus!
