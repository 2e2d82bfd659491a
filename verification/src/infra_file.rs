//! One parsed input file: its provenance, format descriptor, spatial
//! reference, and the investigations it holds, in input order.

pub mod file_info;
pub mod format;
pub mod parse;
pub mod spatial;

use vstd::prelude::*;

use crate::investigation::{Investigation, InvestigationV};
use file_info::{spec_file_info_empty, FileInfo, FileInfoV};
use format::{spec_format_empty, Format, FormatV};
use spatial::{spec_spatial_empty, Spatial, SpatialV};

verus! {

#[derive(Clone, Debug, PartialEq)]
pub struct InfraFile {
    pub file_info: FileInfo,
    pub format: Format,
    pub spatial: Spatial,
    pub investigations: Vec<Investigation>,
}

#[verifier::ext_equal]
pub struct InfraFileV {
    pub file_info: FileInfoV,
    pub format: FormatV,
    pub spatial: SpatialV,
    pub investigations: Seq<InvestigationV>,
}

impl DeepView for InfraFile {
    type V = InfraFileV;

    open spec fn deep_view(&self) -> InfraFileV {
        InfraFileV {
            file_info: self.file_info.deep_view(),
            format: self.format.deep_view(),
            spatial: self.spatial.deep_view(),
            investigations: self.investigations.deep_view(),
        }
    }
}

pub open spec fn spec_infra_file_empty() -> InfraFileV {
    InfraFileV {
        file_info: spec_file_info_empty(),
        format: spec_format_empty(),
        spatial: spec_spatial_empty(),
        investigations: Seq::empty(),
    }
}

impl InfraFile {
    /// An empty file accumulator.
    pub fn new() -> (r: Self)
        ensures
            r.deep_view() == spec_infra_file_empty(),
    {
        let r = InfraFile {
            file_info: Default::default(),
            format: Default::default(),
            spatial: Default::default(),
            investigations: Vec::new(),
        };
        proof {
            assert(r.investigations.deep_view() =~= Seq::<InvestigationV>::empty());
            assert(r.deep_view() =~= spec_infra_file_empty());
        }
        r
    }
}

impl crate::investigation_aggregator::HasInvestigations for InfraFile {
    open spec fn spec_investigations(&self) -> Seq<InvestigationV> {
        self.investigations.deep_view()
    }

    fn investigations(&self) -> (r: &Vec<Investigation>)
        ensures
            r.deep_view() == self.spec_investigations(),
    {
        &self.investigations
    }
}

impl crate::investigation_aggregator::InvestigationAggregator for InfraFile {

}

impl FileInfo {
    /// A copy with the same contents.
    pub fn duplicate(&self) -> (r: Self)
        ensures
            r == *self,
    {
        FileInfo {
            path: match &self.path {
                Some(s) => Some(s.clone()),
                None => None,
            },
            encoding: match &self.encoding {
                Some(s) => Some(s.clone()),
                None => None,
            },
            text: match &self.text {
                Some(s) => Some(s.clone()),
                None => None,
            },
        }
    }
}

impl Spatial {
    /// A copy with the same contents.
    pub fn duplicate(&self) -> (r: Self)
        ensures
            r == *self,
    {
        Spatial {
            coordinate_system: match &self.coordinate_system {
                crate::parse_result::ParseResult::Missing => crate::parse_result::ParseResult::Missing,
                crate::parse_result::ParseResult::Fallback(s) => crate::parse_result::ParseResult::Fallback(s.clone()),
                crate::parse_result::ParseResult::Parsed(v) => crate::parse_result::ParseResult::Parsed(*v),
            },
            elevation_system: match &self.elevation_system {
                crate::parse_result::ParseResult::Missing => crate::parse_result::ParseResult::Missing,
                crate::parse_result::ParseResult::Fallback(s) => crate::parse_result::ParseResult::Fallback(s.clone()),
                crate::parse_result::ParseResult::Parsed(v) => crate::parse_result::ParseResult::Parsed(*v),
            },
        }
    }
}

} // verus!
