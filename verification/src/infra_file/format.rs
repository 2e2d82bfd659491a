//! The file-format descriptor carried by the `FO` record: format version and
//! the software that produced the file.

use vstd::prelude::*;

use crate::parse_result::{ParseResult, ParseResultV};

verus! {

#[derive(Clone, Debug, PartialEq)]
pub struct Format {
    pub version: ParseResult<String>,
    pub used_software: ParseResult<String>,
    pub software_version: ParseResult<String>,
}

#[verifier::ext_equal]
pub struct FormatV {
    pub version: ParseResultV<Seq<char>>,
    pub used_software: ParseResultV<Seq<char>>,
    pub software_version: ParseResultV<Seq<char>>,
}

impl DeepView for Format {
    type V = FormatV;

    open spec fn deep_view(&self) -> FormatV {
        FormatV {
            version: self.version.deep_view(),
            used_software: self.used_software.deep_view(),
            software_version: self.software_version.deep_view(),
        }
    }
}

pub open spec fn spec_format_empty() -> FormatV {
    FormatV {
        version: ParseResultV::Missing,
        used_software: ParseResultV::Missing,
        software_version: ParseResultV::Missing,
    }
}

impl Default for Format {
    fn default() -> (r: Format)
        ensures
            r.deep_view() == spec_format_empty(),
    {
        Format {
            version: ParseResult::Missing,
            used_software: ParseResult::Missing,
            software_version: ParseResult::Missing,
        }
    }
}

} // verus!
