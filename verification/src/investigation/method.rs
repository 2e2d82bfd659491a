//! The measurement-method descriptor of a sounding, carried by the `TT`
//! record.  The method token decides how later numeric data rows are read;
//! a token outside the closed vocabulary is a decode failure, never a
//! valid-looking default.

use vstd::prelude::*;

use crate::parse_result::{DisplayText, ParseResult, ParseResultV, TryParse};
use crate::text;

verus! {

#[derive(Clone, Debug, PartialEq)]
pub struct Method {
    pub token: ParseResult<MethodToken>,
    pub category: ParseResult<i32>,
    pub id: ParseResult<String>,
    pub standard: ParseResult<String>,
    pub sampler: ParseResult<Sampler>,
    pub specifier: ParseResult<String>,
}

#[verifier::ext_equal]
pub struct MethodV {
    pub token: ParseResultV<MethodToken>,
    pub category: ParseResultV<i32>,
    pub id: ParseResultV<Seq<char>>,
    pub standard: ParseResultV<Seq<char>>,
    pub sampler: ParseResultV<Sampler>,
    pub specifier: ParseResultV<Seq<char>>,
}

impl DeepView for Method {
    type V = MethodV;

    open spec fn deep_view(&self) -> MethodV {
        MethodV {
            token: self.token.deep_view(),
            category: self.category.deep_view(),
            id: self.id.deep_view(),
            standard: self.standard.deep_view(),
            sampler: self.sampler.deep_view(),
            specifier: self.specifier.deep_view(),
        }
    }
}

pub open spec fn spec_method_empty() -> MethodV {
    MethodV {
        token: ParseResultV::Missing,
        category: ParseResultV::Missing,
        id: ParseResultV::Missing,
        standard: ParseResultV::Missing,
        sampler: ParseResultV::Missing,
        specifier: ParseResultV::Missing,
    }
}

impl Default for Method {
    fn default() -> (r: Method)
        ensures
            r.deep_view() == spec_method_empty(),
    {
        Method {
            token: ParseResult::Missing,
            category: ParseResult::Missing,
            id: ParseResult::Missing,
            standard: ParseResult::Missing,
            sampler: ParseResult::Missing,
            specifier: ParseResult::Missing,
        }
    }
}

/// The 27 measurement methods of the format.
#[derive(Clone, Copy, Debug, PartialEq, Eq, Hash, Structural)]
pub enum MethodToken {
    PA,
    PI,
    LY,
    SI,
    HE,
    HK,
    PT,
    TR,
    PR,
    CP,
    CU,
    HP,
    PO,
    MW,
    VP,
    VO,
    VK,
    VPK,
    HV,
    HU,
    PS,
    PM,
    KO,
    KE,
    KR,
    NO,
    NE,
}

impl DeepView for MethodToken {
    type V = MethodToken;

    open spec fn deep_view(&self) -> MethodToken {
        *self
    }
}

impl TryParse for MethodToken {
    open spec fn parse_spec(s: Seq<char>) -> Option<MethodToken> {
        let u = text::spec_upper(s);
        if u == "PA"@ || u == "WST"@ {
            Some(MethodToken::PA)
        } else if u == "PI"@ {
            Some(MethodToken::PI)
        } else if u == "LY"@ {
            Some(MethodToken::LY)
        } else if u == "SI"@ || u == "FVT"@ {
            Some(MethodToken::SI)
        } else if u == "HE"@ || u == "DP"@ {
            Some(MethodToken::HE)
        } else if u == "HK"@ {
            Some(MethodToken::HK)
        } else if u == "PT"@ {
            Some(MethodToken::PT)
        } else if u == "TR"@ {
            Some(MethodToken::TR)
        } else if u == "PR"@ {
            Some(MethodToken::PR)
        } else if u == "CP"@ || u == "CPT"@ {
            Some(MethodToken::CP)
        } else if u == "CU"@ || u == "CPTU"@ {
            Some(MethodToken::CU)
        } else if u == "HP"@ {
            Some(MethodToken::HP)
        } else if u == "PO"@ {
            Some(MethodToken::PO)
        } else if u == "MW"@ {
            Some(MethodToken::MW)
        } else if u == "VP"@ {
            Some(MethodToken::VP)
        } else if u == "VO"@ {
            Some(MethodToken::VO)
        } else if u == "VK"@ {
            Some(MethodToken::VK)
        } else if u == "VPK"@ {
            Some(MethodToken::VPK)
        } else if u == "HV"@ {
            Some(MethodToken::HV)
        } else if u == "HU"@ {
            Some(MethodToken::HU)
        } else if u == "PS"@ || u == "PMT"@ {
            Some(MethodToken::PS)
        } else if u == "PM"@ {
            Some(MethodToken::PM)
        } else if u == "KO"@ {
            Some(MethodToken::KO)
        } else if u == "KE"@ {
            Some(MethodToken::KE)
        } else if u == "KR"@ {
            Some(MethodToken::KR)
        } else if u == "NO"@ {
            Some(MethodToken::NO)
        } else if u == "NE"@ {
            Some(MethodToken::NE)
        } else {
            None
        }
    }

    fn try_parse(input: &str) -> (r: Result<Self, String>)
        ensures
            match r {
                Ok(v) => Self::parse_spec(input@) == Some(v.deep_view()),
                Err(e) => Self::parse_spec(input@) is None && e@ == input@,
            },
    {
        if text::upper_eq(input, "PA") || text::upper_eq(input, "WST") {
            Ok(MethodToken::PA)
        } else if text::upper_eq(input, "PI") {
            Ok(MethodToken::PI)
        } else if text::upper_eq(input, "LY") {
            Ok(MethodToken::LY)
        } else if text::upper_eq(input, "SI") || text::upper_eq(input, "FVT") {
            Ok(MethodToken::SI)
        } else if text::upper_eq(input, "HE") || text::upper_eq(input, "DP") {
            Ok(MethodToken::HE)
        } else if text::upper_eq(input, "HK") {
            Ok(MethodToken::HK)
        } else if text::upper_eq(input, "PT") {
            Ok(MethodToken::PT)
        } else if text::upper_eq(input, "TR") {
            Ok(MethodToken::TR)
        } else if text::upper_eq(input, "PR") {
            Ok(MethodToken::PR)
        } else if text::upper_eq(input, "CP") || text::upper_eq(input, "CPT") {
            Ok(MethodToken::CP)
        } else if text::upper_eq(input, "CU") || text::upper_eq(input, "CPTU") {
            Ok(MethodToken::CU)
        } else if text::upper_eq(input, "HP") {
            Ok(MethodToken::HP)
        } else if text::upper_eq(input, "PO") {
            Ok(MethodToken::PO)
        } else if text::upper_eq(input, "MW") {
            Ok(MethodToken::MW)
        } else if text::upper_eq(input, "VP") {
            Ok(MethodToken::VP)
        } else if text::upper_eq(input, "VO") {
            Ok(MethodToken::VO)
        } else if text::upper_eq(input, "VK") {
            Ok(MethodToken::VK)
        } else if text::upper_eq(input, "VPK") {
            Ok(MethodToken::VPK)
        } else if text::upper_eq(input, "HV") {
            Ok(MethodToken::HV)
        } else if text::upper_eq(input, "HU") {
            Ok(MethodToken::HU)
        } else if text::upper_eq(input, "PS") || text::upper_eq(input, "PMT") {
            Ok(MethodToken::PS)
        } else if text::upper_eq(input, "PM") {
            Ok(MethodToken::PM)
        } else if text::upper_eq(input, "KO") {
            Ok(MethodToken::KO)
        } else if text::upper_eq(input, "KE") {
            Ok(MethodToken::KE)
        } else if text::upper_eq(input, "KR") {
            Ok(MethodToken::KR)
        } else if text::upper_eq(input, "NO") {
            Ok(MethodToken::NO)
        } else if text::upper_eq(input, "NE") {
            Ok(MethodToken::NE)
        } else {
            Err(String::from_str(input))
        }
    }
}

impl DisplayText for MethodToken {
    open spec fn spec_text(&self) -> Seq<char> {
        match self {
            MethodToken::PA => "Weight sounding test"@,
            MethodToken::PI => "Stick drilling"@,
            MethodToken::LY => "Hammer drilling"@,
            MethodToken::SI => "Field vane test"@,
            MethodToken::HE => "Dynamic probing"@,
            MethodToken::HK => "Dynamic probing with torque"@,
            MethodToken::PT => "Pipe drilling"@,
            MethodToken::TR => "Pin drilling"@,
            MethodToken::PR => "Static penetration test"@,
            MethodToken::CP => "Cone penetration test (CPT)"@,
            MethodToken::CU => "CPTU-sounding (CPTU)"@,
            MethodToken::HP => "Static dynamic penetration test"@,
            MethodToken::PO => "MWD quality class 3"@,
            MethodToken::MW => "MWD-drilling"@,
            MethodToken::VP => "Standpipe for groundwater table"@,
            MethodToken::VO => "Standpipe for perched water table"@,
            MethodToken::VK => "Water table in well"@,
            MethodToken::VPK => "Standpipe for groundwater table (bedrock)"@,
            MethodToken::HV => "Piezometer measurement"@,
            MethodToken::HU => "Air void pipe"@,
            MethodToken::PS => "Pressuremeter test"@,
            MethodToken::PM => "Settlement measurement"@,
            MethodToken::KO => "Test pit"@,
            MethodToken::KE => "Core sampling (extended)"@,
            MethodToken::KR => "Core sampling (video)"@,
            MethodToken::NO => "Disturbed sampling"@,
            MethodToken::NE => "Undisturbed sampling"@,
        }
    }

    fn display_text(&self) -> (r: String)
        ensures
            r@ == self.spec_text(),
    {
        match self {
            MethodToken::PA => String::from_str("Weight sounding test"),
            MethodToken::PI => String::from_str("Stick drilling"),
            MethodToken::LY => String::from_str("Hammer drilling"),
            MethodToken::SI => String::from_str("Field vane test"),
            MethodToken::HE => String::from_str("Dynamic probing"),
            MethodToken::HK => String::from_str("Dynamic probing with torque"),
            MethodToken::PT => String::from_str("Pipe drilling"),
            MethodToken::TR => String::from_str("Pin drilling"),
            MethodToken::PR => String::from_str("Static penetration test"),
            MethodToken::CP => String::from_str("Cone penetration test (CPT)"),
            MethodToken::CU => String::from_str("CPTU-sounding (CPTU)"),
            MethodToken::HP => String::from_str("Static dynamic penetration test"),
            MethodToken::PO => String::from_str("MWD quality class 3"),
            MethodToken::MW => String::from_str("MWD-drilling"),
            MethodToken::VP => String::from_str("Standpipe for groundwater table"),
            MethodToken::VO => String::from_str("Standpipe for perched water table"),
            MethodToken::VK => String::from_str("Water table in well"),
            MethodToken::VPK => String::from_str("Standpipe for groundwater table (bedrock)"),
            MethodToken::HV => String::from_str("Piezometer measurement"),
            MethodToken::HU => String::from_str("Air void pipe"),
            MethodToken::PS => String::from_str("Pressuremeter test"),
            MethodToken::PM => String::from_str("Settlement measurement"),
            MethodToken::KO => String::from_str("Test pit"),
            MethodToken::KE => String::from_str("Core sampling (extended)"),
            MethodToken::KR => String::from_str("Core sampling (video)"),
            MethodToken::NO => String::from_str("Disturbed sampling"),
            MethodToken::NE => String::from_str("Undisturbed sampling"),
        }
    }
}

#[derive(Clone, Copy, Debug, PartialEq, Eq, Hash, Structural)]
pub enum Sampler {
    Unknown,
    K,
    L,
    PMK,
    R,
    ST50,
    ST60,
}

impl DeepView for Sampler {
    type V = Sampler;

    open spec fn deep_view(&self) -> Sampler {
        *self
    }
}

impl TryParse for Sampler {
    open spec fn parse_spec(s: Seq<char>) -> Option<Sampler> {
        let u = text::spec_upper(s);
        if u == "K"@ {
            Some(Sampler::K)
        } else if u == "L"@ {
            Some(Sampler::L)
        } else if u == "PMK"@ {
            Some(Sampler::PMK)
        } else if u == "R"@ {
            Some(Sampler::R)
        } else if u == "ST50"@ || u == "ST-50"@ {
            Some(Sampler::ST50)
        } else if u == "ST60"@ || u == "ST-60"@ {
            Some(Sampler::ST60)
        } else {
            None
        }
    }

    fn try_parse(input: &str) -> (r: Result<Self, String>)
        ensures
            match r {
                Ok(v) => Self::parse_spec(input@) == Some(v.deep_view()),
                Err(e) => Self::parse_spec(input@) is None && e@ == input@,
            },
    {
        if text::upper_eq(input, "K") {
            Ok(Sampler::K)
        } else if text::upper_eq(input, "L") {
            Ok(Sampler::L)
        } else if text::upper_eq(input, "PMK") {
            Ok(Sampler::PMK)
        } else if text::upper_eq(input, "R") {
            Ok(Sampler::R)
        } else if text::upper_eq(input, "ST50") || text::upper_eq(input, "ST-50") {
            Ok(Sampler::ST50)
        } else if text::upper_eq(input, "ST60") || text::upper_eq(input, "ST-60") {
            Ok(Sampler::ST60)
        } else {
            Err(String::from_str(input))
        }
    }
}

impl DisplayText for Sampler {
    open spec fn spec_text(&self) -> Seq<char> {
        match self {
            Sampler::K => "Auger drill"@,
            Sampler::L => "Shovel"@,
            Sampler::PMK => "Small piston drill-26"@,
            Sampler::R => "Bagged sample"@,
            Sampler::ST50 => "St-50"@,
            Sampler::ST60 => "St-60"@,
            Sampler::Unknown => "Unknown sampler"@,
        }
    }

    fn display_text(&self) -> (r: String)
        ensures
            r@ == self.spec_text(),
    {
        match self {
            Sampler::K => String::from_str("Auger drill"),
            Sampler::L => String::from_str("Shovel"),
            Sampler::PMK => String::from_str("Small piston drill-26"),
            Sampler::R => String::from_str("Bagged sample"),
            Sampler::ST50 => String::from_str("St-50"),
            Sampler::ST60 => String::from_str("St-60"),
            Sampler::Unknown => String::from_str("Unknown sampler"),
        }
    }
}

} // verus!
