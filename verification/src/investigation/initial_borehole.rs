//! How the boring was opened before the sounding proper, carried by the `AL`
//! record.

use vstd::prelude::*;

use crate::decimal::Decimal;
use crate::parse_result::{DisplayText, ParseResult, ParseResultV, TryParse};
use crate::text;

verus! {

#[derive(Clone, Debug, PartialEq)]
pub struct InitialBorehole {
    pub depth: ParseResult<Decimal>,
    pub method: ParseResult<InitialBoreToken>,
    pub soil_type: ParseResult<String>,
}

#[verifier::ext_equal]
pub struct InitialBoreholeV {
    pub depth: ParseResultV<int>,
    pub method: ParseResultV<InitialBoreToken>,
    pub soil_type: ParseResultV<Seq<char>>,
}

impl DeepView for InitialBorehole {
    type V = InitialBoreholeV;

    open spec fn deep_view(&self) -> InitialBoreholeV {
        InitialBoreholeV {
            depth: self.depth.deep_view(),
            method: self.method.deep_view(),
            soil_type: self.soil_type.deep_view(),
        }
    }
}

pub open spec fn spec_initial_borehole_empty() -> InitialBoreholeV {
    InitialBoreholeV {
        depth: ParseResultV::Missing,
        method: ParseResultV::Missing,
        soil_type: ParseResultV::Missing,
    }
}

impl Default for InitialBorehole {
    fn default() -> (r: InitialBorehole)
        ensures
            r.deep_view() == spec_initial_borehole_empty(),
    {
        InitialBorehole {
            depth: ParseResult::Missing,
            method: ParseResult::Missing,
            soil_type: ParseResult::Missing,
        }
    }
}

#[derive(Clone, Copy, Debug, PartialEq, Eq, Hash, Structural)]
pub enum InitialBoreToken {
    Unknown,
    SI,
    LK,
    AP,
    LY,
    VA,
    JA,
}

impl DeepView for InitialBoreToken {
    type V = InitialBoreToken;

    open spec fn deep_view(&self) -> InitialBoreToken {
        *self
    }
}

impl TryParse for InitialBoreToken {
    open spec fn parse_spec(s: Seq<char>) -> Option<InitialBoreToken> {
        let u = text::spec_upper(s);
        if u == "SI"@ {
            Some(InitialBoreToken::SI)
        } else if u == "LK"@ {
            Some(InitialBoreToken::LK)
        } else if u == "AP"@ {
            Some(InitialBoreToken::AP)
        } else if u == "LY"@ {
            Some(InitialBoreToken::LY)
        } else if u == "VA"@ {
            Some(InitialBoreToken::VA)
        } else if u == "JA"@ {
            Some(InitialBoreToken::JA)
        } else {
            None
        }
    }

    fn try_parse(input: &str) -> (r: Result<Self, String>)
        ensures
            match r {
                Ok(v) => Self::parse_spec(input@) == Some(v.deep_view()),
                Err(e) => Self::parse_spec(input@) is None && e@ == input@,
            },
    {
        if text::upper_eq(input, "SI") {
            Ok(InitialBoreToken::SI)
        } else if text::upper_eq(input, "LK") {
            Ok(InitialBoreToken::LK)
        } else if text::upper_eq(input, "AP") {
            Ok(InitialBoreToken::AP)
        } else if text::upper_eq(input, "LY") {
            Ok(InitialBoreToken::LY)
        } else if text::upper_eq(input, "VA") {
            Ok(InitialBoreToken::VA)
        } else if text::upper_eq(input, "JA") {
            Ok(InitialBoreToken::JA)
        } else {
            Err(String::from_str(input))
        }
    }
}

impl DisplayText for InitialBoreToken {
    open spec fn spec_text(&self) -> Seq<char> {
        match self {
            InitialBoreToken::Unknown => "Unknown method"@,
            InitialBoreToken::SI => "Through protective pipe"@,
            InitialBoreToken::LK => "Shovel pit"@,
            InitialBoreToken::AP => "Opening with drill"@,
            InitialBoreToken::LY => "Hammered"@,
            InitialBoreToken::VA => "Water initiation"@,
            InitialBoreToken::JA => "Continues previous investigation"@,
        }
    }

    fn display_text(&self) -> (r: String)
        ensures
            r@ == self.spec_text(),
    {
        match self {
            InitialBoreToken::Unknown => String::from_str("Unknown method"),
            InitialBoreToken::SI => String::from_str("Through protective pipe"),
            InitialBoreToken::LK => String::from_str("Shovel pit"),
            InitialBoreToken::AP => String::from_str("Opening with drill"),
            InitialBoreToken::LY => String::from_str("Hammered"),
            InitialBoreToken::VA => String::from_str("Water initiation"),
            InitialBoreToken::JA => String::from_str("Continues previous investigation"),
        }
    }
}

} // verus!
