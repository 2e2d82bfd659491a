//! Verified reader for a line-oriented ground-investigation exchange
//! format.
//!
//! Each input file describes one site: file-level metadata, a spatial
//! reference, and a sequence of investigations (one per borehole or
//! sounding), each accumulated from record lines and closed by a
//! terminator line.  Every scalar column is read into the tolerant
//! tri-state [`ParseResult`]; the line dispatcher in
//! [`infra_file::parse`] and the post-processing derivations in
//! [`investigation`] are verified against spec-level models of the whole
//! parse.
//!
//! Reading bytes and detecting their encoding is the caller's business:
//! the core consumes already-decoded lines through
//! [`InfraFile::parse_lines`].

pub mod date;
pub mod decimal;
pub mod infra_file;
pub mod investigation;
pub mod investigation_aggregator;
pub mod investigation_collection;
pub mod num;
pub mod observation;
pub mod parse_result;
pub mod parsed_value;
pub mod text;

pub use date::Date;
pub use decimal::Decimal;
pub use infra_file::file_info::FileInfo;
pub use infra_file::format::Format;
pub use infra_file::spatial::{CoordinateSystem, ElevationSystem, Spatial};
pub use investigation::classification::{Classification, ClassificationName};
pub use investigation::coordinates::Coordinates;
pub use investigation::depthless_rock_sample::DepthlessRockSample;
pub use investigation::equipment::Equipment;
pub use investigation::initial_borehole::{InitialBoreToken, InitialBorehole};
pub use investigation::line::Line;
pub use investigation::method::{Method, MethodToken, Sampler};
pub use investigation::organisations::Organisations;
pub use investigation::program::Program;
pub use investigation::record::{Digitized, Record};
pub use investigation::standpipe::Standpipe;
pub use investigation::termination::{Termination, TerminationToken};
pub use investigation::work::Work;
pub use investigation::{Investigation, SoilLayer};
pub use investigation_aggregator::{HasInvestigations, InvestigationAggregator};
pub use investigation_collection::InvestigationCollection;
pub use infra_file::InfraFile;
pub use observation::lab_results::LabResult;
pub use observation::observation_values::ObservationValues;
pub use observation::Observation;
pub use parse_result::{DisplayText, ParseResult, ParseResultV, TryParse};
pub use parsed_value::ParsedValue;

