//! The soil-classification scheme named by the `ML` record.

use vstd::prelude::*;

use crate::parse_result::{DisplayText, ParseResult, ParseResultV, TryParse};
use crate::text;

verus! {

#[derive(Clone, Debug, PartialEq)]
pub struct Classification {
    pub name: ParseResult<ClassificationName>,
}

#[verifier::ext_equal]
pub struct ClassificationV {
    pub name: ParseResultV<ClassificationName>,
}

impl DeepView for Classification {
    type V = ClassificationV;

    open spec fn deep_view(&self) -> ClassificationV {
        ClassificationV { name: self.name.deep_view() }
    }
}

pub open spec fn spec_classification_empty() -> ClassificationV {
    ClassificationV { name: ParseResultV::Missing }
}

impl Default for Classification {
    fn default() -> (r: Classification)
        ensures
            r.deep_view() == spec_classification_empty(),
    {
        Classification { name: ParseResult::Missing }
    }
}

#[derive(Clone, Copy, Debug, PartialEq, Eq, Hash, Structural)]
pub enum ClassificationName {
    GEO,
    ISO,
}

impl DeepView for ClassificationName {
    type V = ClassificationName;

    open spec fn deep_view(&self) -> ClassificationName {
        *self
    }
}

impl TryParse for ClassificationName {
    open spec fn parse_spec(s: Seq<char>) -> Option<ClassificationName> {
        let u = text::spec_upper(s);
        if u == "GEO"@ {
            Some(ClassificationName::GEO)
        } else if u == "ISO"@ {
            Some(ClassificationName::ISO)
        } else {
            None
        }
    }

    fn try_parse(input: &str) -> (r: Result<Self, String>)
        ensures
            match r {
                Ok(v) => Self::parse_spec(input@) == Some(v.deep_view()),
                Err(e) => Self::parse_spec(input@) is None && e@ == input@,
            },
    {
        if text::upper_eq(input, "GEO") {
            Ok(ClassificationName::GEO)
        } else if text::upper_eq(input, "ISO") {
            Ok(ClassificationName::ISO)
        } else {
            Err(String::from_str(input))
        }
    }
}

impl DisplayText for ClassificationName {
    open spec fn spec_text(&self) -> Seq<char> {
        match self {
            ClassificationName::GEO => "GEO classification"@,
            ClassificationName::ISO => "SFS-EN ISO 14688-2"@,
        }
    }

    fn display_text(&self) -> (r: String)
        ensures
            r@ == self.spec_text(),
    {
        match self {
            ClassificationName::GEO => String::from_str("GEO classification"),
            ClassificationName::ISO => String::from_str("SFS-EN ISO 14688-2"),
        }
    }
}

} // verus!
