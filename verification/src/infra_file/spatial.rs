//! The spatial reference of a file, carried by the `KJ` record: a coordinate
//! system and an elevation system, both closed vocabularies with legacy
//! aliases, matched without regard to letter case.

use vstd::prelude::*;

use crate::parse_result::{DisplayText, ParseResult, ParseResultV, TryParse};
use crate::text;

verus! {

#[derive(Clone, Debug, PartialEq)]
pub struct Spatial {
    pub coordinate_system: ParseResult<CoordinateSystem>,
    pub elevation_system: ParseResult<ElevationSystem>,
}

#[verifier::ext_equal]
pub struct SpatialV {
    pub coordinate_system: ParseResultV<CoordinateSystem>,
    pub elevation_system: ParseResultV<ElevationSystem>,
}

impl DeepView for Spatial {
    type V = SpatialV;

    open spec fn deep_view(&self) -> SpatialV {
        SpatialV {
            coordinate_system: self.coordinate_system.deep_view(),
            elevation_system: self.elevation_system.deep_view(),
        }
    }
}

pub open spec fn spec_spatial_empty() -> SpatialV {
    SpatialV {
        coordinate_system: ParseResultV::Missing,
        elevation_system: ParseResultV::Missing,
    }
}

impl Default for Spatial {
    fn default() -> (r: Spatial)
        ensures
            r.deep_view() == spec_spatial_empty(),
    {
        Spatial {
            coordinate_system: ParseResult::Missing,
            elevation_system: ParseResult::Missing,
        }
    }
}

#[derive(Clone, Copy, Debug, PartialEq, Eq, Hash, Structural)]
pub enum CoordinateSystem {
    Unknown,
    WGS84,
    HKI,
    VANTAA,
    ESPOO,
    KKJ0,
    KKJ1,
    KKJ2,
    KKJ3,
    KKJ4,
    KKJ5,
    YKJ,
    GK19,
    GK20,
    GK21,
    GK22,
    GK23,
    GK24,
    GK25,
    GK26,
    GK27,
    GK28,
    GK29,
    GK30,
    GK31,
    TM34,
    TM35,
    TM36,
}

impl DeepView for CoordinateSystem {
    type V = CoordinateSystem;

    open spec fn deep_view(&self) -> CoordinateSystem {
        *self
    }
}

#[derive(Clone, Copy, Debug, PartialEq, Eq, Hash, Structural)]
pub enum ElevationSystem {
    Unknown,
    N2000,
    N60,
    N43,
    NN,
    LN,
}

impl DeepView for ElevationSystem {
    type V = ElevationSystem;

    open spec fn deep_view(&self) -> ElevationSystem {
        *self
    }
}

impl TryParse for CoordinateSystem {
    open spec fn parse_spec(s: Seq<char>) -> Option<CoordinateSystem> {
        let u = text::spec_upper(s);
        if u == "WGS84"@ || u == "WGS"@ {
            Some(CoordinateSystem::WGS84)
        } else if u == "HKI"@ {
            Some(CoordinateSystem::HKI)
        } else if u == "VANTAA"@ {
            Some(CoordinateSystem::VANTAA)
        } else if u == "ESPOO"@ {
            Some(CoordinateSystem::ESPOO)
        } else if u == "KKJ0"@ {
            Some(CoordinateSystem::KKJ0)
        } else if u == "KKJ1"@ {
            Some(CoordinateSystem::KKJ1)
        } else if u == "KKJ2"@ {
            Some(CoordinateSystem::KKJ2)
        } else if u == "KKJ3"@ {
            Some(CoordinateSystem::KKJ3)
        } else if u == "KKJ4"@ {
            Some(CoordinateSystem::KKJ4)
        } else if u == "KKJ5"@ {
            Some(CoordinateSystem::KKJ5)
        } else if u == "YKJ"@ {
            Some(CoordinateSystem::YKJ)
        } else if u == "GK19"@ || u == "ETRSGK19"@ || u == "ETRS-GK19"@ {
            Some(CoordinateSystem::GK19)
        } else if u == "GK20"@ || u == "ETRSGK20"@ || u == "ETRS-GK20"@ {
            Some(CoordinateSystem::GK20)
        } else if u == "GK21"@ || u == "ETRSGK21"@ || u == "ETRS-GK21"@ {
            Some(CoordinateSystem::GK21)
        } else if u == "GK22"@ || u == "ETRSGK22"@ || u == "ETRS-GK22"@ {
            Some(CoordinateSystem::GK22)
        } else if u == "GK23"@ || u == "ETRSGK23"@ || u == "ETRS-GK23"@ {
            Some(CoordinateSystem::GK23)
        } else if u == "GK24"@ || u == "ETRSGK24"@ || u == "ETRS-GK24"@ {
            Some(CoordinateSystem::GK24)
        } else if u == "GK25"@ || u == "ETRSGK25"@ || u == "ETRS-GK25"@ {
            Some(CoordinateSystem::GK25)
        } else if u == "GK26"@ || u == "ETRSGK26"@ || u == "ETRS-GK26"@ {
            Some(CoordinateSystem::GK26)
        } else if u == "GK27"@ || u == "ETRSGK27"@ || u == "ETRS-GK27"@ {
            Some(CoordinateSystem::GK27)
        } else if u == "GK28"@ || u == "ETRSGK28"@ || u == "ETRS-GK28"@ {
            Some(CoordinateSystem::GK28)
        } else if u == "GK29"@ || u == "ETRSGK29"@ || u == "ETRS-GK29"@ {
            Some(CoordinateSystem::GK29)
        } else if u == "GK30"@ || u == "ETRSGK30"@ || u == "ETRS-GK30"@ {
            Some(CoordinateSystem::GK30)
        } else if u == "GK31"@ || u == "ETRSGK31"@ || u == "ETRS-GK31"@ {
            Some(CoordinateSystem::GK31)
        } else if u == "TM35"@ || u == "ETRSTM35"@ || u == "ETRS-TM35"@ || u == "TM35FIN"@ || u
            == "ETRSTM35FIN"@ || u == "ETRS-TM35FIN"@ {
            Some(CoordinateSystem::TM35)
        } else {
            None
        }
    }

    fn try_parse(input: &str) -> (r: Result<Self, String>)
        ensures
            match r {
                Ok(v) => Self::parse_spec(input@) == Some(v.deep_view()),
                Err(e) => Self::parse_spec(input@) is None && e@ == input@,
            },
    {
        if text::upper_eq(input, "WGS84") || text::upper_eq(input, "WGS") {
            Ok(CoordinateSystem::WGS84)
        } else if text::upper_eq(input, "HKI") {
            Ok(CoordinateSystem::HKI)
        } else if text::upper_eq(input, "VANTAA") {
            Ok(CoordinateSystem::VANTAA)
        } else if text::upper_eq(input, "ESPOO") {
            Ok(CoordinateSystem::ESPOO)
        } else if text::upper_eq(input, "KKJ0") {
            Ok(CoordinateSystem::KKJ0)
        } else if text::upper_eq(input, "KKJ1") {
            Ok(CoordinateSystem::KKJ1)
        } else if text::upper_eq(input, "KKJ2") {
            Ok(CoordinateSystem::KKJ2)
        } else if text::upper_eq(input, "KKJ3") {
            Ok(CoordinateSystem::KKJ3)
        } else if text::upper_eq(input, "KKJ4") {
            Ok(CoordinateSystem::KKJ4)
        } else if text::upper_eq(input, "KKJ5") {
            Ok(CoordinateSystem::KKJ5)
        } else if text::upper_eq(input, "YKJ") {
            Ok(CoordinateSystem::YKJ)
        } else if text::upper_eq(input, "GK19") || text::upper_eq(input, "ETRSGK19")
            || text::upper_eq(input, "ETRS-GK19") {
            Ok(CoordinateSystem::GK19)
        } else if text::upper_eq(input, "GK20") || text::upper_eq(input, "ETRSGK20")
            || text::upper_eq(input, "ETRS-GK20") {
            Ok(CoordinateSystem::GK20)
        } else if text::upper_eq(input, "GK21") || text::upper_eq(input, "ETRSGK21")
            || text::upper_eq(input, "ETRS-GK21") {
            Ok(CoordinateSystem::GK21)
        } else if text::upper_eq(input, "GK22") || text::upper_eq(input, "ETRSGK22")
            || text::upper_eq(input, "ETRS-GK22") {
            Ok(CoordinateSystem::GK22)
        } else if text::upper_eq(input, "GK23") || text::upper_eq(input, "ETRSGK23")
            || text::upper_eq(input, "ETRS-GK23") {
            Ok(CoordinateSystem::GK23)
        } else if text::upper_eq(input, "GK24") || text::upper_eq(input, "ETRSGK24")
            || text::upper_eq(input, "ETRS-GK24") {
            Ok(CoordinateSystem::GK24)
        } else if text::upper_eq(input, "GK25") || text::upper_eq(input, "ETRSGK25")
            || text::upper_eq(input, "ETRS-GK25") {
            Ok(CoordinateSystem::GK25)
        } else if text::upper_eq(input, "GK26") || text::upper_eq(input, "ETRSGK26")
            || text::upper_eq(input, "ETRS-GK26") {
            Ok(CoordinateSystem::GK26)
        } else if text::upper_eq(input, "GK27") || text::upper_eq(input, "ETRSGK27")
            || text::upper_eq(input, "ETRS-GK27") {
            Ok(CoordinateSystem::GK27)
        } else if text::upper_eq(input, "GK28") || text::upper_eq(input, "ETRSGK28")
            || text::upper_eq(input, "ETRS-GK28") {
            Ok(CoordinateSystem::GK28)
        } else if text::upper_eq(input, "GK29") || text::upper_eq(input, "ETRSGK29")
            || text::upper_eq(input, "ETRS-GK29") {
            Ok(CoordinateSystem::GK29)
        } else if text::upper_eq(input, "GK30") || text::upper_eq(input, "ETRSGK30")
            || text::upper_eq(input, "ETRS-GK30") {
            Ok(CoordinateSystem::GK30)
        } else if text::upper_eq(input, "GK31") || text::upper_eq(input, "ETRSGK31")
            || text::upper_eq(input, "ETRS-GK31") {
            Ok(CoordinateSystem::GK31)
        } else if text::upper_eq(input, "TM35") || text::upper_eq(input, "ETRSTM35")
            || text::upper_eq(input, "ETRS-TM35") || text::upper_eq(input, "TM35FIN")
            || text::upper_eq(input, "ETRSTM35FIN") || text::upper_eq(input, "ETRS-TM35FIN") {
            Ok(CoordinateSystem::TM35)
        } else {
            Err(String::from_str(input))
        }
    }
}

impl TryParse for ElevationSystem {
    open spec fn parse_spec(s: Seq<char>) -> Option<ElevationSystem> {
        let u = text::spec_upper(s);
        if u == "N2000"@ {
            Some(ElevationSystem::N2000)
        } else if u == "N60"@ {
            Some(ElevationSystem::N60)
        } else if u == "N43"@ {
            Some(ElevationSystem::N43)
        } else if u == "NN"@ {
            Some(ElevationSystem::NN)
        } else if u == "LN"@ {
            Some(ElevationSystem::LN)
        } else {
            None
        }
    }

    fn try_parse(input: &str) -> (r: Result<Self, String>)
        ensures
            match r {
                Ok(v) => Self::parse_spec(input@) == Some(v.deep_view()),
                Err(e) => Self::parse_spec(input@) is None && e@ == input@,
            },
    {
        if text::upper_eq(input, "N2000") {
            Ok(ElevationSystem::N2000)
        } else if text::upper_eq(input, "N60") {
            Ok(ElevationSystem::N60)
        } else if text::upper_eq(input, "N43") {
            Ok(ElevationSystem::N43)
        } else if text::upper_eq(input, "NN") {
            Ok(ElevationSystem::NN)
        } else if text::upper_eq(input, "LN") {
            Ok(ElevationSystem::LN)
        } else {
            Err(String::from_str(input))
        }
    }
}

impl DisplayText for CoordinateSystem {
    open spec fn spec_text(&self) -> Seq<char> {
        match self {
            CoordinateSystem::Unknown => "Unknown"@,
            CoordinateSystem::WGS84 => "WGS84"@,
            CoordinateSystem::HKI => "HKI"@,
            CoordinateSystem::VANTAA => "VANTAA"@,
            CoordinateSystem::ESPOO => "ESPOO"@,
            CoordinateSystem::KKJ0 => "KKJ0"@,
            CoordinateSystem::KKJ1 => "KKJ1"@,
            CoordinateSystem::KKJ2 => "KKJ2"@,
            CoordinateSystem::KKJ3 => "KKJ3"@,
            CoordinateSystem::KKJ4 => "KKJ4"@,
            CoordinateSystem::KKJ5 => "KKJ5"@,
            CoordinateSystem::YKJ => "YKJ"@,
            CoordinateSystem::GK19 => "ETRS-GK19"@,
            CoordinateSystem::GK20 => "ETRS-GK20"@,
            CoordinateSystem::GK21 => "ETRS-GK21"@,
            CoordinateSystem::GK22 => "ETRS-GK22"@,
            CoordinateSystem::GK23 => "ETRS-GK23"@,
            CoordinateSystem::GK24 => "ETRS-GK24"@,
            CoordinateSystem::GK25 => "ETRS-GK25"@,
            CoordinateSystem::GK26 => "ETRS-GK26"@,
            CoordinateSystem::GK27 => "ETRS-GK27"@,
            CoordinateSystem::GK28 => "ETRS-GK28"@,
            CoordinateSystem::GK29 => "ETRS-GK29"@,
            CoordinateSystem::GK30 => "ETRS-GK30"@,
            CoordinateSystem::GK31 => "ETRS-GK31"@,
            CoordinateSystem::TM34 => "ETRS-TM34"@,
            CoordinateSystem::TM35 => "ETRS-TM35"@,
            CoordinateSystem::TM36 => "ETRS-TM36"@,
        }
    }

    fn display_text(&self) -> (r: String)
        ensures
            r@ == self.spec_text(),
    {
        match self {
            CoordinateSystem::Unknown => String::from_str("Unknown"),
            CoordinateSystem::WGS84 => String::from_str("WGS84"),
            CoordinateSystem::HKI => String::from_str("HKI"),
            CoordinateSystem::VANTAA => String::from_str("VANTAA"),
            CoordinateSystem::ESPOO => String::from_str("ESPOO"),
            CoordinateSystem::KKJ0 => String::from_str("KKJ0"),
            CoordinateSystem::KKJ1 => String::from_str("KKJ1"),
            CoordinateSystem::KKJ2 => String::from_str("KKJ2"),
            CoordinateSystem::KKJ3 => String::from_str("KKJ3"),
            CoordinateSystem::KKJ4 => String::from_str("KKJ4"),
            CoordinateSystem::KKJ5 => String::from_str("KKJ5"),
            CoordinateSystem::YKJ => String::from_str("YKJ"),
            CoordinateSystem::GK19 => String::from_str("ETRS-GK19"),
            CoordinateSystem::GK20 => String::from_str("ETRS-GK20"),
            CoordinateSystem::GK21 => String::from_str("ETRS-GK21"),
            CoordinateSystem::GK22 => String::from_str("ETRS-GK22"),
            CoordinateSystem::GK23 => String::from_str("ETRS-GK23"),
            CoordinateSystem::GK24 => String::from_str("ETRS-GK24"),
            CoordinateSystem::GK25 => String::from_str("ETRS-GK25"),
            CoordinateSystem::GK26 => String::from_str("ETRS-GK26"),
            CoordinateSystem::GK27 => String::from_str("ETRS-GK27"),
            CoordinateSystem::GK28 => String::from_str("ETRS-GK28"),
            CoordinateSystem::GK29 => String::from_str("ETRS-GK29"),
            CoordinateSystem::GK30 => String::from_str("ETRS-GK30"),
            CoordinateSystem::GK31 => String::from_str("ETRS-GK31"),
            CoordinateSystem::TM34 => String::from_str("ETRS-TM34"),
            CoordinateSystem::TM35 => String::from_str("ETRS-TM35"),
            CoordinateSystem::TM36 => String::from_str("ETRS-TM36"),
        }
    }
}

impl DisplayText for ElevationSystem {
    open spec fn spec_text(&self) -> Seq<char> {
        match self {
            ElevationSystem::Unknown => "Unknown"@,
            ElevationSystem::N2000 => "N2000"@,
            ElevationSystem::N60 => "N60"@,
            ElevationSystem::N43 => "N43"@,
            ElevationSystem::NN => "NN"@,
            ElevationSystem::LN => "LN"@,
        }
    }

    fn display_text(&self) -> (r: String)
        ensures
            r@ == self.spec_text(),
    {
        match self {
            ElevationSystem::Unknown => String::from_str("Unknown"),
            ElevationSystem::N2000 => String::from_str("N2000"),
            ElevationSystem::N60 => String::from_str("N60"),
            ElevationSystem::N43 => String::from_str("N43"),
            ElevationSystem::NN => String::from_str("NN"),
            ElevationSystem::LN => String::from_str("LN"),
        }
    }
}

} // verus!
