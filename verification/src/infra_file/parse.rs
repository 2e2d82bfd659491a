//! The line dispatcher: the state machine that reads a file's lines in
//! order, accumulates the in-progress investigation, and closes it into the
//! file's list on each terminator line.
//!
//! The machine is lenient, as the format's hand-edited files require:
//! a line whose record code is unknown is ignored, a numeric data row with
//! no decodable active method is discarded, and a lab-result line whose
//! target is not a sample observation is dropped.  No investigation is
//! emitted without its terminator line.

use vstd::prelude::*;

use crate::date::Date;
use crate::decimal::Decimal;
use crate::infra_file::file_info::{FileInfo, FileInfoV};
use crate::infra_file::format::FormatV;
use crate::infra_file::spatial::{CoordinateSystem, ElevationSystem, SpatialV};
use crate::infra_file::{InfraFile, InfraFileV};
use crate::investigation::classification::{ClassificationName, ClassificationV};
use crate::investigation::coordinates::CoordinatesV;
use crate::investigation::depthless_rock_sample::DepthlessRockSampleV;
use crate::investigation::equipment::EquipmentV;
use crate::investigation::initial_borehole::{InitialBoreToken, InitialBoreholeV};
use crate::investigation::line::LineV;
use crate::investigation::method::{MethodToken, MethodV, Sampler};
use crate::investigation::organisations::OrganisationsV;
use crate::investigation::program::ProgramV;
use crate::investigation::record::{Digitized, RecordV};
use crate::investigation::standpipe::StandpipeV;
use crate::investigation::termination::{TerminationToken, TerminationV};
use crate::investigation::work::WorkV;
use crate::investigation::{
    spec_finalize, spec_investigation_empty, Investigation, InvestigationV,
};
use crate::num;
use crate::observation::lab_results::{LabResult, LabResultV};
use crate::observation::observation_values::{ObservationValues, ObservationValuesV};
use crate::observation::{spec_observation_with, Observation, ObservationV};
use crate::parse_result::{spec_parse_field, ParseResult, ParseResultV, TryParse};
use crate::text;

verus! {

/// The dispatcher's state between lines: the file accumulator and the
/// in-progress investigation.
#[verifier::ext_equal]
pub struct ParseState {
    pub file: InfraFileV,
    pub inv: InvestigationV,
}

/// The positional column `i` of a parameter list: a column past the end of
/// the line is `Missing`, not an error.
pub open spec fn spec_parse_value<T: TryParse>(ps: Seq<Seq<char>>, i: int) -> ParseResultV<T::V> {
    if 0 <= i < ps.len() {
        spec_parse_field::<T>(ps[i])
    } else {
        ParseResultV::Missing
    }
}

/// The file-format record `FO`.
pub open spec fn spec_fo(f: InfraFileV, ps: Seq<Seq<char>>) -> InfraFileV {
    InfraFileV {
        format: FormatV {
            version: spec_parse_value::<String>(ps, 0),
            used_software: spec_parse_value::<String>(ps, 1),
            software_version: spec_parse_value::<String>(ps, 2),
        },
        ..f
    }
}

/// The spatial-reference record `KJ`.
pub open spec fn spec_kj(f: InfraFileV, ps: Seq<Seq<char>>) -> InfraFileV {
    InfraFileV {
        spatial: SpatialV {
            coordinate_system: spec_parse_value::<CoordinateSystem>(ps, 0),
            elevation_system: spec_parse_value::<ElevationSystem>(ps, 1),
        },
        ..f
    }
}

/// The owner-organisation record `OM`.
pub open spec fn spec_om(inv: InvestigationV, ps: Seq<Seq<char>>) -> InvestigationV {
    InvestigationV {
        organisations: OrganisationsV {
            owner_name: spec_parse_value::<String>(ps, 0),
            ..inv.organisations
        },
        ..inv
    }
}

/// The classification record `ML`.
pub open spec fn spec_ml(inv: InvestigationV, ps: Seq<Seq<char>>) -> InvestigationV {
    InvestigationV {
        classification: ClassificationV { name: spec_parse_value::<ClassificationName>(ps, 0) },
        ..inv
    }
}

/// The investigator-organisation record `OR`.
pub open spec fn spec_or(inv: InvestigationV, ps: Seq<Seq<char>>) -> InvestigationV {
    InvestigationV {
        organisations: OrganisationsV {
            investigator_name: spec_parse_value::<String>(ps, 0),
            ..inv.organisations
        },
        ..inv
    }
}

/// The work-identifier record `TY`.
pub open spec fn spec_ty(inv: InvestigationV, ps: Seq<Seq<char>>) -> InvestigationV {
    InvestigationV {
        work: WorkV {
            id: spec_parse_value::<String>(ps, 0),
            name: spec_parse_value::<String>(ps, 1),
        },
        ..inv
    }
}

/// The record-keeping record `PK`.
pub open spec fn spec_pk(inv: InvestigationV, ps: Seq<Seq<char>>) -> InvestigationV {
    InvestigationV {
        record: RecordV {
            number: spec_parse_value::<i32>(ps, 0),
            driller: spec_parse_value::<String>(ps, 1),
            inspector: spec_parse_value::<String>(ps, 2),
            processor: spec_parse_value::<String>(ps, 3),
            digitalized: spec_parse_value::<Digitized>(ps, 4),
            condition: spec_parse_value::<String>(ps, 5),
        },
        ..inv
    }
}

/// The method-descriptor record `TT`; its first column sets the active
/// method for subsequent numeric rows.
pub open spec fn spec_tt(inv: InvestigationV, ps: Seq<Seq<char>>) -> InvestigationV {
    InvestigationV {
        method: MethodV {
            token: spec_parse_value::<MethodToken>(ps, 0),
            category: spec_parse_value::<i32>(ps, 1),
            id: spec_parse_value::<String>(ps, 2),
            standard: spec_parse_value::<String>(ps, 3),
            sampler: spec_parse_value::<Sampler>(ps, 4),
            specifier: spec_parse_value::<String>(ps, 5),
        },
        ..inv
    }
}

/// The equipment record `LA`.
pub open spec fn spec_la(inv: InvestigationV, ps: Seq<Seq<char>>) -> InvestigationV {
    InvestigationV {
        equipment: EquipmentV {
            number: spec_parse_value::<i32>(ps, 0),
            description: spec_parse_value::<String>(ps, 1),
            cone_size: spec_parse_value::<String>(ps, 2),
        },
        ..inv
    }
}

/// The coordinate record `XY`.
pub open spec fn spec_xy(inv: InvestigationV, ps: Seq<Seq<char>>) -> InvestigationV {
    InvestigationV {
        coordinates: CoordinatesV {
            x: spec_parse_value::<Decimal>(ps, 0),
            y: spec_parse_value::<Decimal>(ps, 1),
            start_elevation: spec_parse_value::<Decimal>(ps, 2),
            date: spec_parse_value::<Date>(ps, 3),
            point_id: spec_parse_value::<String>(ps, 4),
        },
        ..inv
    }
}

/// The measuring-line record `LN`.
pub open spec fn spec_ln(inv: InvestigationV, ps: Seq<Seq<char>>) -> InvestigationV {
    InvestigationV {
        line: LineV {
            name: spec_parse_value::<String>(ps, 0),
            stake: spec_parse_value::<Decimal>(ps, 1),
            distance: spec_parse_value::<Decimal>(ps, 2),
        },
        ..inv
    }
}

/// The programme record `GR`.
pub open spec fn spec_gr(inv: InvestigationV, ps: Seq<Seq<char>>) -> InvestigationV {
    InvestigationV {
        program: ProgramV {
            name: spec_parse_value::<String>(ps, 0),
            date: spec_parse_value::<Date>(ps, 1),
            author: spec_parse_value::<String>(ps, 2),
            ..inv.program
        },
        ..inv
    }
}

/// The programme-guide record `GL`; each one appends a guide entry.
pub open spec fn spec_gl(inv: InvestigationV, ps: Seq<Seq<char>>) -> InvestigationV {
    InvestigationV {
        program: ProgramV {
            guide: inv.program.guide.push(spec_parse_value::<String>(ps, 0)),
            ..inv.program
        },
        ..inv
    }
}

/// The depthless-rock-sample record `AT`.
pub open spec fn spec_at(inv: InvestigationV, ps: Seq<Seq<char>>) -> InvestigationV {
    InvestigationV {
        depthless_rock_sample: DepthlessRockSampleV {
            attribute: spec_parse_value::<String>(ps, 0),
            value: spec_parse_value::<String>(ps, 1),
        },
        ..inv
    }
}

/// The initial-boring record `AL`.
pub open spec fn spec_al(inv: InvestigationV, ps: Seq<Seq<char>>) -> InvestigationV {
    InvestigationV {
        initial_borehole: InitialBoreholeV {
            depth: spec_parse_value::<Decimal>(ps, 0),
            method: spec_parse_value::<InitialBoreToken>(ps, 1),
            soil_type: spec_parse_value::<String>(ps, 2),
        },
        ..inv
    }
}

/// The standpipe-elevations record `ZP`.
pub open spec fn spec_zp(inv: InvestigationV, ps: Seq<Seq<char>>) -> InvestigationV {
    InvestigationV {
        standpipe: StandpipeV {
            top_elevation: spec_parse_value::<Decimal>(ps, 0),
            ground_elevation: spec_parse_value::<Decimal>(ps, 1),
            protection_top_elevation: spec_parse_value::<Decimal>(ps, 2),
            cover_elevation: spec_parse_value::<Decimal>(ps, 3),
            sieve_bottom_elevation: spec_parse_value::<Decimal>(ps, 4),
            ..inv.standpipe
        },
        ..inv
    }
}

/// The standpipe-structure record `TP`.
pub open spec fn spec_tp(inv: InvestigationV, ps: Seq<Seq<char>>) -> InvestigationV {
    InvestigationV {
        standpipe: StandpipeV {
            upper_structure: spec_parse_value::<String>(ps, 0),
            sieve_length: spec_parse_value::<Decimal>(ps, 1),
            sieve_type: spec_parse_value::<String>(ps, 2),
            diameter: spec_parse_value::<Decimal>(ps, 3),
            material: spec_parse_value::<String>(ps, 4),
            ..inv.standpipe
        },
        ..inv
    }
}

/// The standpipe-upkeep record `LP`.
pub open spec fn spec_lp(inv: InvestigationV, ps: Seq<Seq<char>>) -> InvestigationV {
    InvestigationV {
        standpipe: StandpipeV {
            measure_point: spec_parse_value::<String>(ps, 0),
            details: spec_parse_value::<String>(ps, 1),
            locked: spec_parse_value::<String>(ps, 2),
            lock_owner: spec_parse_value::<String>(ps, 3),
            installer: spec_parse_value::<String>(ps, 4),
            ..inv.standpipe
        },
        ..inv
    }
}

/// Appends one annotation entry to the last observation where one exists,
/// and otherwise to the given investigation-level list; used by the `HM`,
/// `TX`, and `HT` records.
pub open spec fn spec_annotate(
    inv: InvestigationV,
    ps: Seq<Seq<char>>,
    which: AnnotationKind,
) -> InvestigationV {
    let entry = ParseResultV::<Seq<char>>::Parsed(text::spec_join_spaces(ps));
    if inv.observations.len() > 0 {
        let last = inv.observations.last();
        let updated = match which {
            AnnotationKind::Note => ObservationV { notes: last.notes.push(entry), ..last },
            AnnotationKind::FreeText => ObservationV {
                free_text: last.free_text.push(entry),
                ..last
            },
            AnnotationKind::HiddenText => ObservationV {
                hidden_text: last.hidden_text.push(entry),
                ..last
            },
        };
        InvestigationV {
            observations: inv.observations.update(inv.observations.len() - 1, updated),
            ..inv
        }
    } else {
        match which {
            AnnotationKind::Note => InvestigationV { notes: inv.notes.push(entry), ..inv },
            AnnotationKind::FreeText => InvestigationV {
                free_text: inv.free_text.push(entry),
                ..inv
            },
            AnnotationKind::HiddenText => InvestigationV {
                hidden_text: inv.hidden_text.push(entry),
                ..inv
            },
        }
    }
}

/// Which annotation list a record writes to.
pub enum AnnotationKind {
    Note,
    FreeText,
    HiddenText,
}

/// The unofficial-soil-type record `EM`: appended to the last observation's
/// override list, and dropped when no observation exists yet.
pub open spec fn spec_em(inv: InvestigationV, ps: Seq<Seq<char>>) -> InvestigationV {
    let entry = ParseResultV::<Seq<char>>::Parsed(text::spec_join_spaces(ps));
    if inv.observations.len() > 0 {
        let last = inv.observations.last();
        InvestigationV {
            observations: inv.observations.update(
                inv.observations.len() - 1,
                ObservationV {
                    unofficial_soil_type: last.unofficial_soil_type.push(entry),
                    ..last
                },
            ),
            ..inv
        }
    } else {
        inv
    }
}

/// Appends a lab result to the last observation's list where that
/// observation is a sample (`NO`/`NE`) variant; anywhere else the result is
/// dropped.
pub open spec fn spec_attach_lab(inv: InvestigationV, lab: LabResultV) -> InvestigationV {
    if inv.observations.len() > 0 {
        let last = inv.observations.last();
        match last.values {
            ObservationValuesV::NO { start_depth, sample_id, end_depth, soil_type, lab_values } => {
                let values = ObservationValuesV::NO {
                    start_depth,
                    sample_id,
                    end_depth,
                    soil_type,
                    lab_values: lab_values.push(ParseResultV::Parsed(lab)),
                };
                InvestigationV {
                    observations: inv.observations.update(
                        inv.observations.len() - 1,
                        ObservationV { values, ..last },
                    ),
                    ..inv
                }
            }
            ObservationValuesV::NE { start_depth, sample_id, end_depth, soil_type, lab_values } => {
                let values = ObservationValuesV::NE {
                    start_depth,
                    sample_id,
                    end_depth,
                    soil_type,
                    lab_values: lab_values.push(ParseResultV::Parsed(lab)),
                };
                InvestigationV {
                    observations: inv.observations.update(
                        inv.observations.len() - 1,
                        ObservationV { values, ..last },
                    ),
                    ..inv
                }
            }
            _ => inv,
        }
    } else {
        inv
    }
}

/// The free lab-attribute record `LB`.
pub open spec fn spec_lb(inv: InvestigationV, ps: Seq<Seq<char>>) -> InvestigationV {
    spec_attach_lab(
        inv,
        LabResultV::Other {
            attribute: spec_parse_value::<String>(ps, 0),
            result: spec_parse_value::<String>(ps, 1),
            unit: spec_parse_value::<String>(ps, 2),
        },
    )
}

/// The grain-size lab record `RK`.
pub open spec fn spec_rk(inv: InvestigationV, ps: Seq<Seq<char>>) -> InvestigationV {
    spec_attach_lab(
        inv,
        LabResultV::GrainSize {
            grain_mm: spec_parse_value::<Decimal>(ps, 0),
            pass_percent: spec_parse_value::<Decimal>(ps, 1),
        },
    )
}

/// The terminator line `-1`: the termination reason is attached, the
/// investigation moves into the file's list, and the accumulator resets.
pub open spec fn spec_end(s: ParseState, ps: Seq<Seq<char>>) -> ParseState {
    let closed = InvestigationV {
        termination: TerminationV { token: spec_parse_value::<TerminationToken>(ps, 0) },
        ..s.inv
    };
    ParseState {
        file: InfraFileV { investigations: s.file.investigations.push(closed), ..s.file },
        inv: spec_investigation_empty(),
    }
}

/// The dual-encoded second column of a `PA` row: a non-negative value is
/// the load, a negative value is a hit count, as its absolute value in
/// whole units, truncated, and capped at `i32::MAX`; exactly one of the two
/// is ever set.
pub open spec fn spec_pa_split(second: ParseResultV<int>) -> (ParseResultV<int>, ParseResultV<
    i32,
>) {
    match second {
        ParseResultV::Parsed(m) => if m >= 0 {
            (ParseResultV::Parsed(m), ParseResultV::Missing)
        } else {
            (ParseResultV::Missing, ParseResultV::Parsed(spec_hits_of_micro(m)))
        },
        _ => (ParseResultV::Missing, ParseResultV::Missing),
    }
}

/// The hit count encoded as a negative decimal in millionths.
pub open spec fn spec_hits_of_micro(m: int) -> i32 {
    let units = (-m) / 1_000_000;
    if units > i32::MAX {
        i32::MAX
    } else {
        units as i32
    }
}

/// The dual encoding of the `PA` second column never sets both halves: a
/// decoded non-negative value is stored only as the load, a decoded
/// negative value only as a hit count, and an undecoded column sets
/// neither.
pub proof fn lemma_pa_dual_encoding(second: ParseResultV<int>)
    ensures
        !((spec_pa_split(second).0 is Parsed) && (spec_pa_split(second).1 is Parsed)),
        second matches ParseResultV::Parsed(m) ==> (if m >= 0 {
            spec_pa_split(second) == (
                ParseResultV::<int>::Parsed(m),
                ParseResultV::<i32>::Missing,
            )
        } else {
            (spec_pa_split(second).0 is Missing) && spec_pa_split(second).1 == ParseResultV::<
                i32,
            >::Parsed(spec_hits_of_micro(m))
        }),
        !(second is Parsed) ==> spec_pa_split(second) == (
            ParseResultV::<int>::Missing,
            ParseResultV::<i32>::Missing,
        ),
{
}

/// A data row of the weight-sounding method `PA`, with the dual-encoded
/// second column.
pub open spec fn spec_pa(inv: InvestigationV, ps: Seq<Seq<char>>) -> InvestigationV {
    let split = spec_pa_split(spec_parse_value::<Decimal>(ps, 1));
    InvestigationV {
        observations: inv.observations.push(
            spec_observation_with(
                ObservationValuesV::PA {
                    depth: spec_parse_value::<Decimal>(ps, 0),
                    load: split.0,
                    hits: split.1,
                    half_turns: spec_parse_value::<i32>(ps, 2),
                    soil_type: spec_parse_value::<String>(ps, 3),
                },
            ),
        ),
        ..inv
    }
}

/// A data row of the static-dynamic method `HP`: the flag in the fourth
/// column selects whether the second column is a hit count (`"H"`) or a
/// pressure (`"P"`); any other flag, or an absent flag column, leaves both
/// unset, and the row is appended either way.
pub open spec fn spec_hp(inv: InvestigationV, ps: Seq<Seq<char>>) -> InvestigationV {
    let hits = if ps.len() > 3 && ps[3] == "H"@ {
        spec_parse_value::<i32>(ps, 1)
    } else {
        ParseResultV::<i32>::Missing
    };
    let pressure = if ps.len() > 3 && ps[3] == "P"@ {
        spec_parse_value::<Decimal>(ps, 1)
    } else {
        ParseResultV::<int>::Missing
    };
    InvestigationV {
        observations: inv.observations.push(
            spec_observation_with(
                ObservationValuesV::HP {
                    depth: spec_parse_value::<Decimal>(ps, 0),
                    hits,
                    pressure,
                    torque: spec_parse_value::<Decimal>(ps, 2),
                    mode: spec_parse_value::<String>(ps, 3),
                    soil_type: spec_parse_value::<String>(ps, 4),
                },
            ),
        ),
        ..inv
    }
}

/// A data row of the stick-drilling method `PI`.
pub open spec fn spec_pi(inv: InvestigationV, ps: Seq<Seq<char>>) -> InvestigationV {
    InvestigationV {
        observations: inv.observations.push(
            spec_observation_with(
                ObservationValuesV::PI {
                    depth: spec_parse_value::<Decimal>(ps, 0),
                    soil_type: spec_parse_value::<String>(ps, 1),
                },
            ),
        ),
        ..inv
    }
}

/// A data row of the hammer-drilling method `LY`.
pub open spec fn spec_ly(inv: InvestigationV, ps: Seq<Seq<char>>) -> InvestigationV {
    InvestigationV {
        observations: inv.observations.push(
            spec_observation_with(
                ObservationValuesV::LY {
                    depth: spec_parse_value::<Decimal>(ps, 0),
                    load: spec_parse_value::<Decimal>(ps, 1),
                    hits: spec_parse_value::<i32>(ps, 2),
                    soil_type: spec_parse_value::<String>(ps, 3),
                },
            ),
        ),
        ..inv
    }
}

/// A data row of the field-vane method `SI`.
pub open spec fn spec_si(inv: InvestigationV, ps: Seq<Seq<char>>) -> InvestigationV {
    InvestigationV {
        observations: inv.observations.push(
            spec_observation_with(
                ObservationValuesV::SI {
                    depth: spec_parse_value::<Decimal>(ps, 0),
                    shear_str: spec_parse_value::<Decimal>(ps, 1),
                    disturb_shear_str: spec_parse_value::<Decimal>(ps, 2),
                    sensitivity: spec_parse_value::<Decimal>(ps, 3),
                    residual_str: spec_parse_value::<Decimal>(ps, 4),
                },
            ),
        ),
        ..inv
    }
}

/// A data row of the dynamic-probing method `HE`.
pub open spec fn spec_he(inv: InvestigationV, ps: Seq<Seq<char>>) -> InvestigationV {
    InvestigationV {
        observations: inv.observations.push(
            spec_observation_with(
                ObservationValuesV::HE {
                    depth: spec_parse_value::<Decimal>(ps, 0),
                    hits: spec_parse_value::<i32>(ps, 1),
                    soil_type: spec_parse_value::<String>(ps, 2),
                },
            ),
        ),
        ..inv
    }
}

/// A data row of the dynamic-probing-with-torque method `HK`.
pub open spec fn spec_hk(inv: InvestigationV, ps: Seq<Seq<char>>) -> InvestigationV {
    InvestigationV {
        observations: inv.observations.push(
            spec_observation_with(
                ObservationValuesV::HK {
                    depth: spec_parse_value::<Decimal>(ps, 0),
                    hits: spec_parse_value::<i32>(ps, 1),
                    torque: spec_parse_value::<Decimal>(ps, 2),
                    soil_type: spec_parse_value::<String>(ps, 3),
                },
            ),
        ),
        ..inv
    }
}

/// A data row of the pipe-drilling method `PT`.
pub open spec fn spec_pt(inv: InvestigationV, ps: Seq<Seq<char>>) -> InvestigationV {
    InvestigationV {
        observations: inv.observations.push(
            spec_observation_with(
                ObservationValuesV::PT {
                    depth: spec_parse_value::<Decimal>(ps, 0),
                    soil_type: spec_parse_value::<String>(ps, 1),
                },
            ),
        ),
        ..inv
    }
}

/// A data row of the pin-drilling method `TR`.
pub open spec fn spec_tr(inv: InvestigationV, ps: Seq<Seq<char>>) -> InvestigationV {
    InvestigationV {
        observations: inv.observations.push(
            spec_observation_with(
                ObservationValuesV::TR {
                    depth: spec_parse_value::<Decimal>(ps, 0),
                    soil_type: spec_parse_value::<String>(ps, 1),
                },
            ),
        ),
        ..inv
    }
}

/// A data row of the static-penetration method `PR`.
pub open spec fn spec_pr(inv: InvestigationV, ps: Seq<Seq<char>>) -> InvestigationV {
    InvestigationV {
        observations: inv.observations.push(
            spec_observation_with(
                ObservationValuesV::PR {
                    depth: spec_parse_value::<Decimal>(ps, 0),
                    total_resistance: spec_parse_value::<Decimal>(ps, 1),
                    sleeve_friction: spec_parse_value::<Decimal>(ps, 2),
                    soil_type: spec_parse_value::<String>(ps, 3),
                },
            ),
        ),
        ..inv
    }
}

/// A data row of the cone-penetration method `CP`.
pub open spec fn spec_cp(inv: InvestigationV, ps: Seq<Seq<char>>) -> InvestigationV {
    InvestigationV {
        observations: inv.observations.push(
            spec_observation_with(
                ObservationValuesV::CP {
                    depth: spec_parse_value::<Decimal>(ps, 0),
                    total_resistance: spec_parse_value::<Decimal>(ps, 1),
                    sleeve_friction: spec_parse_value::<Decimal>(ps, 2),
                    tip_resistance: spec_parse_value::<Decimal>(ps, 3),
                    soil_type: spec_parse_value::<String>(ps, 4),
                },
            ),
        ),
        ..inv
    }
}

/// A data row of the pore-pressure cone-penetration method `CU`.
pub open spec fn spec_cu(inv: InvestigationV, ps: Seq<Seq<char>>) -> InvestigationV {
    InvestigationV {
        observations: inv.observations.push(
            spec_observation_with(
                ObservationValuesV::CU {
                    depth: spec_parse_value::<Decimal>(ps, 0),
                    total_resistance: spec_parse_value::<Decimal>(ps, 1),
                    sleeve_friction: spec_parse_value::<Decimal>(ps, 2),
                    tip_resistance: spec_parse_value::<Decimal>(ps, 3),
                    pore_water_pressure: spec_parse_value::<Decimal>(ps, 4),
                    soil_type: spec_parse_value::<String>(ps, 5),
                },
            ),
        ),
        ..inv
    }
}

/// A data row of the drill-rig method `PO`.
pub open spec fn spec_po(inv: InvestigationV, ps: Seq<Seq<char>>) -> InvestigationV {
    InvestigationV {
        observations: inv.observations.push(
            spec_observation_with(
                ObservationValuesV::PO {
                    depth: spec_parse_value::<Decimal>(ps, 0),
                    time: spec_parse_value::<i32>(ps, 1),
                    soil_type: spec_parse_value::<String>(ps, 2),
                },
            ),
        ),
        ..inv
    }
}

/// A data row of the MWD-drilling method `MW`.
pub open spec fn spec_mw(inv: InvestigationV, ps: Seq<Seq<char>>) -> InvestigationV {
    InvestigationV {
        observations: inv.observations.push(
            spec_observation_with(
                ObservationValuesV::MW {
                    depth: spec_parse_value::<Decimal>(ps, 0),
                    advance_rate: spec_parse_value::<Decimal>(ps, 1),
                    compressive_force: spec_parse_value::<Decimal>(ps, 2),
                    flushing_pressure: spec_parse_value::<Decimal>(ps, 3),
                    water_consumption: spec_parse_value::<Decimal>(ps, 4),
                    torque: spec_parse_value::<Decimal>(ps, 5),
                    rotation_speed: spec_parse_value::<Decimal>(ps, 6),
                    hits: spec_parse_value::<String>(ps, 7),
                    soil_type: spec_parse_value::<String>(ps, 8),
                },
            ),
        ),
        ..inv
    }
}

/// A data row of the groundwater-standpipe method `VP`.
pub open spec fn spec_vp(inv: InvestigationV, ps: Seq<Seq<char>>) -> InvestigationV {
    InvestigationV {
        observations: inv.observations.push(
            spec_observation_with(
                ObservationValuesV::VP {
                    surface_elev: spec_parse_value::<Decimal>(ps, 0),
                    date: spec_parse_value::<Date>(ps, 1),
                    pipe_top_elev: spec_parse_value::<Decimal>(ps, 2),
                    pipe_bot_elev: spec_parse_value::<Decimal>(ps, 3),
                    sieve_len: spec_parse_value::<Decimal>(ps, 4),
                    measurer: spec_parse_value::<String>(ps, 5),
                },
            ),
        ),
        ..inv
    }
}

/// A data row of the perched-water-standpipe method `VO`.
pub open spec fn spec_vo(inv: InvestigationV, ps: Seq<Seq<char>>) -> InvestigationV {
    InvestigationV {
        observations: inv.observations.push(
            spec_observation_with(
                ObservationValuesV::VO {
                    surface_elev: spec_parse_value::<Decimal>(ps, 0),
                    date: spec_parse_value::<Date>(ps, 1),
                    pipe_top_elev: spec_parse_value::<Decimal>(ps, 2),
                    pipe_bot_elev: spec_parse_value::<Decimal>(ps, 3),
                    sieve_len: spec_parse_value::<Decimal>(ps, 4),
                    measurer: spec_parse_value::<String>(ps, 5),
                },
            ),
        ),
        ..inv
    }
}

/// A data row of the well water-table method `VK`.
pub open spec fn spec_vk(inv: InvestigationV, ps: Seq<Seq<char>>) -> InvestigationV {
    InvestigationV {
        observations: inv.observations.push(
            spec_observation_with(
                ObservationValuesV::VK {
                    surface_elev: spec_parse_value::<Decimal>(ps, 0),
                    date: spec_parse_value::<Date>(ps, 1),
                    water_type: spec_parse_value::<String>(ps, 2),
                },
            ),
        ),
        ..inv
    }
}

/// A data row of the bedrock-standpipe method `VPK`.
pub open spec fn spec_vpk(inv: InvestigationV, ps: Seq<Seq<char>>) -> InvestigationV {
    InvestigationV {
        observations: inv.observations.push(
            spec_observation_with(
                ObservationValuesV::VPK {
                    surface_elev: spec_parse_value::<Decimal>(ps, 0),
                    date: spec_parse_value::<Date>(ps, 1),
                },
            ),
        ),
        ..inv
    }
}

/// A data row of the piezometer method `HV`.
pub open spec fn spec_hv(inv: InvestigationV, ps: Seq<Seq<char>>) -> InvestigationV {
    InvestigationV {
        observations: inv.observations.push(
            spec_observation_with(
                ObservationValuesV::HV {
                    depth: spec_parse_value::<Decimal>(ps, 0),
                    pressure: spec_parse_value::<Decimal>(ps, 1),
                    date: spec_parse_value::<Date>(ps, 2),
                    measurer: spec_parse_value::<String>(ps, 3),
                },
            ),
        ),
        ..inv
    }
}

/// A data row of the air-void-pipe method `HU`.
pub open spec fn spec_hu(inv: InvestigationV, ps: Seq<Seq<char>>) -> InvestigationV {
    InvestigationV {
        observations: inv.observations.push(
            spec_observation_with(
                ObservationValuesV::HU {
                    surface_elev: spec_parse_value::<Decimal>(ps, 0),
                    date: spec_parse_value::<Date>(ps, 1),
                    pipe_top_elev: spec_parse_value::<Decimal>(ps, 2),
                    pipe_bot_elev: spec_parse_value::<Decimal>(ps, 3),
                    sieve_len: spec_parse_value::<Decimal>(ps, 4),
                    measurer: spec_parse_value::<String>(ps, 5),
                },
            ),
        ),
        ..inv
    }
}

/// A data row of the pressuremeter method `PS`.
pub open spec fn spec_ps(inv: InvestigationV, ps: Seq<Seq<char>>) -> InvestigationV {
    InvestigationV {
        observations: inv.observations.push(
            spec_observation_with(
                ObservationValuesV::PS {
                    depth: spec_parse_value::<Decimal>(ps, 0),
                    modulus: spec_parse_value::<Decimal>(ps, 1),
                    fail_pressure: spec_parse_value::<Decimal>(ps, 2),
                },
            ),
        ),
        ..inv
    }
}

/// A data row of the settlement method `PM`.
pub open spec fn spec_pm(inv: InvestigationV, ps: Seq<Seq<char>>) -> InvestigationV {
    InvestigationV {
        observations: inv.observations.push(
            spec_observation_with(
                ObservationValuesV::PM {
                    elev: spec_parse_value::<Decimal>(ps, 0),
                    date: spec_parse_value::<Date>(ps, 1),
                    measurer: spec_parse_value::<String>(ps, 2),
                },
            ),
        ),
        ..inv
    }
}

/// A data row of the test-pit method `KO`.
pub open spec fn spec_ko(inv: InvestigationV, ps: Seq<Seq<char>>) -> InvestigationV {
    InvestigationV {
        observations: inv.observations.push(
            spec_observation_with(
                ObservationValuesV::KO {
                    depth: spec_parse_value::<Decimal>(ps, 0),
                    soil_type: spec_parse_value::<String>(ps, 1),
                    stones: spec_parse_value::<Decimal>(ps, 2),
                    boulders: spec_parse_value::<i32>(ps, 3),
                    max_width: spec_parse_value::<Decimal>(ps, 4),
                    min_width: spec_parse_value::<Decimal>(ps, 5),
                },
            ),
        ),
        ..inv
    }
}

/// A data row of the extended core-sampling method `KE`.
pub open spec fn spec_ke(inv: InvestigationV, ps: Seq<Seq<char>>) -> InvestigationV {
    InvestigationV {
        observations: inv.observations.push(
            spec_observation_with(
                ObservationValuesV::KE {
                    start_depth: spec_parse_value::<Decimal>(ps, 0),
                    end_depth: spec_parse_value::<Decimal>(ps, 1),
                },
            ),
        ),
        ..inv
    }
}

/// A data row of the video core-sampling method `KR`.
pub open spec fn spec_kr(inv: InvestigationV, ps: Seq<Seq<char>>) -> InvestigationV {
    InvestigationV {
        observations: inv.observations.push(
            spec_observation_with(
                ObservationValuesV::KR {
                    start_depth: spec_parse_value::<Decimal>(ps, 0),
                    end_depth: spec_parse_value::<Decimal>(ps, 1),
                },
            ),
        ),
        ..inv
    }
}

/// A data row of the disturbed-sample method `NO`.
pub open spec fn spec_no(inv: InvestigationV, ps: Seq<Seq<char>>) -> InvestigationV {
    InvestigationV {
        observations: inv.observations.push(
            spec_observation_with(
                ObservationValuesV::NO {
                    start_depth: spec_parse_value::<Decimal>(ps, 0),
                    sample_id: spec_parse_value::<String>(ps, 1),
                    end_depth: spec_parse_value::<Decimal>(ps, 2),
                    soil_type: spec_parse_value::<String>(ps, 3),
                    lab_values: Seq::empty(),
                },
            ),
        ),
        ..inv
    }
}

/// A data row of the undisturbed-sample method `NE`.
pub open spec fn spec_ne(inv: InvestigationV, ps: Seq<Seq<char>>) -> InvestigationV {
    InvestigationV {
        observations: inv.observations.push(
            spec_observation_with(
                ObservationValuesV::NE {
                    start_depth: spec_parse_value::<Decimal>(ps, 0),
                    sample_id: spec_parse_value::<String>(ps, 1),
                    end_depth: spec_parse_value::<Decimal>(ps, 2),
                    soil_type: spec_parse_value::<String>(ps, 3),
                    lab_values: Seq::empty(),
                },
            ),
        ),
        ..inv
    }
}

/// The observation data row of the active method: the row's own tokens,
/// code included, are the positional columns.
pub open spec fn spec_obs_row(
    inv: InvestigationV,
    m: MethodToken,
    ps: Seq<Seq<char>>,
) -> InvestigationV {
    match m {
        MethodToken::PA => spec_pa(inv, ps),
        MethodToken::PI => spec_pi(inv, ps),
        MethodToken::LY => spec_ly(inv, ps),
        MethodToken::SI => spec_si(inv, ps),
        MethodToken::HE => spec_he(inv, ps),
        MethodToken::HK => spec_hk(inv, ps),
        MethodToken::PT => spec_pt(inv, ps),
        MethodToken::TR => spec_tr(inv, ps),
        MethodToken::PR => spec_pr(inv, ps),
        MethodToken::CP => spec_cp(inv, ps),
        MethodToken::CU => spec_cu(inv, ps),
        MethodToken::HP => spec_hp(inv, ps),
        MethodToken::PO => spec_po(inv, ps),
        MethodToken::MW => spec_mw(inv, ps),
        MethodToken::VP => spec_vp(inv, ps),
        MethodToken::VO => spec_vo(inv, ps),
        MethodToken::VK => spec_vk(inv, ps),
        MethodToken::VPK => spec_vpk(inv, ps),
        MethodToken::HV => spec_hv(inv, ps),
        MethodToken::HU => spec_hu(inv, ps),
        MethodToken::PS => spec_ps(inv, ps),
        MethodToken::PM => spec_pm(inv, ps),
        MethodToken::KO => spec_ko(inv, ps),
        MethodToken::KE => spec_ke(inv, ps),
        MethodToken::KR => spec_kr(inv, ps),
        MethodToken::NO => spec_no(inv, ps),
        MethodToken::NE => spec_ne(inv, ps),
    }
}

/// Whether a leading token is one of the format's record codes.
pub open spec fn spec_known_code(code: Seq<char>) -> bool {
    ||| code == "FO"@
    ||| code == "KJ"@
    ||| code == "OM"@
    ||| code == "ML"@
    ||| code == "OR"@
    ||| code == "TY"@
    ||| code == "PK"@
    ||| code == "TT"@
    ||| code == "LA"@
    ||| code == "XY"@
    ||| code == "LN"@
    ||| code == "-1"@
    ||| code == "GR"@
    ||| code == "GL"@
    ||| code == "AT"@
    ||| code == "AL"@
    ||| code == "ZP"@
    ||| code == "TP"@
    ||| code == "LP"@
    ||| code == "HM"@
    ||| code == "TX"@
    ||| code == "HT"@
    ||| code == "EM"@
    ||| code == "LB"@
    ||| code == "RK"@
}

/// What one input line does to the dispatcher's state.
///
/// A blank line changes nothing.  A known record code runs its handler on
/// the remaining tokens.  The terminator closes the in-progress
/// investigation.  A line whose leading token matches the numeric pattern
/// is an observation data row for the active method, and is discarded when
/// no method decoded.  Every other line is ignored.
pub open spec fn spec_step(s: ParseState, line: Seq<char>) -> ParseState {
    let toks = text::spec_tokens(line);
    if toks.len() == 0 {
        s
    } else {
        let code = toks[0];
        let rest = toks.drop_first();
        if code == "FO"@ {
            ParseState { file: spec_fo(s.file, rest), ..s }
        } else if code == "KJ"@ {
            ParseState { file: spec_kj(s.file, rest), ..s }
        } else if code == "OM"@ {
            ParseState { inv: spec_om(s.inv, rest), ..s }
        } else if code == "ML"@ {
            ParseState { inv: spec_ml(s.inv, rest), ..s }
        } else if code == "OR"@ {
            ParseState { inv: spec_or(s.inv, rest), ..s }
        } else if code == "TY"@ {
            ParseState { inv: spec_ty(s.inv, rest), ..s }
        } else if code == "PK"@ {
            ParseState { inv: spec_pk(s.inv, rest), ..s }
        } else if code == "TT"@ {
            ParseState { inv: spec_tt(s.inv, rest), ..s }
        } else if code == "LA"@ {
            ParseState { inv: spec_la(s.inv, rest), ..s }
        } else if code == "XY"@ {
            ParseState { inv: spec_xy(s.inv, rest), ..s }
        } else if code == "LN"@ {
            ParseState { inv: spec_ln(s.inv, rest), ..s }
        } else if code == "-1"@ {
            spec_end(s, rest)
        } else if code == "GR"@ {
            ParseState { inv: spec_gr(s.inv, rest), ..s }
        } else if code == "GL"@ {
            ParseState { inv: spec_gl(s.inv, rest), ..s }
        } else if code == "AT"@ {
            ParseState { inv: spec_at(s.inv, rest), ..s }
        } else if code == "AL"@ {
            ParseState { inv: spec_al(s.inv, rest), ..s }
        } else if code == "ZP"@ {
            ParseState { inv: spec_zp(s.inv, rest), ..s }
        } else if code == "TP"@ {
            ParseState { inv: spec_tp(s.inv, rest), ..s }
        } else if code == "LP"@ {
            ParseState { inv: spec_lp(s.inv, rest), ..s }
        } else if code == "HM"@ {
            ParseState { inv: spec_annotate(s.inv, rest, AnnotationKind::Note), ..s }
        } else if code == "TX"@ {
            ParseState { inv: spec_annotate(s.inv, rest, AnnotationKind::FreeText), ..s }
        } else if code == "HT"@ {
            ParseState { inv: spec_annotate(s.inv, rest, AnnotationKind::HiddenText), ..s }
        } else if code == "EM"@ {
            ParseState { inv: spec_em(s.inv, rest), ..s }
        } else if code == "LB"@ {
            ParseState { inv: spec_lb(s.inv, rest), ..s }
        } else if code == "RK"@ {
            ParseState { inv: spec_rk(s.inv, rest), ..s }
        } else if num::spec_is_decimal_token(code) {
            match s.inv.method.token {
                ParseResultV::Parsed(m) => ParseState { inv: spec_obs_row(s.inv, m, toks), ..s },
                _ => s,
            }
        } else {
            s
        }
    }
}

/// The dispatcher's state after reading the given lines in order.
pub open spec fn spec_fold(lines: Seq<Seq<char>>, init: ParseState) -> ParseState
    decreases lines.len(),
{
    if lines.len() == 0 {
        init
    } else {
        spec_step(spec_fold(lines.drop_last(), init), lines.last())
    }
}

/// The state before any line: an empty file carrying the caller's
/// provenance metadata, and an empty in-progress investigation.
pub open spec fn spec_initial_state(
    path: Option<Seq<char>>,
    encoding: Option<Seq<char>>,
) -> ParseState {
    ParseState {
        file: InfraFileV {
            file_info: FileInfoV { path, encoding, text: None },
            ..crate::infra_file::spec_infra_file_empty()
        },
        inv: spec_investigation_empty(),
    }
}

/// The per-file pass after the last line: every closed investigation is
/// tagged with the file's final provenance and spatial reference and then
/// post-processed.
pub open spec fn spec_compute_properties(f: InfraFileV) -> InfraFileV {
    InfraFileV {
        investigations: f.investigations.map_values(
            |iv: InvestigationV|
                spec_finalize(
                    InvestigationV { file_info: f.file_info, spatial: f.spatial, ..iv },
                ),
        ),
        ..f
    }
}

/// What parsing a whole file means: fold the lines through [`spec_step`]
/// from the initial state, drop the still-open investigation (none is
/// emitted without its terminator), and post-process the rest.
pub open spec fn spec_parse_lines(
    lines: Seq<Seq<char>>,
    path: Option<Seq<char>>,
    encoding: Option<Seq<char>>,
) -> InfraFileV {
    spec_compute_properties(spec_fold(lines, spec_initial_state(path, encoding)).file)
}

/// How many terminator lines a batch of lines holds.
pub open spec fn spec_terminator_count(lines: Seq<Seq<char>>) -> int
    decreases lines.len(),
{
    if lines.len() == 0 {
        0
    } else {
        spec_terminator_count(lines.drop_last()) + (
        if text::spec_tokens(lines.last()).len() > 0 && text::spec_tokens(lines.last())[0]
            == "-1"@ {
            1int
        } else {
            0int
        })
    }
}

/// A single line adds an investigation to the file's list exactly when it
/// is a terminator line.
pub proof fn lemma_step_emits_on_terminator(s: ParseState, line: Seq<char>)
    ensures
        spec_step(s, line).file.investigations.len() == s.file.investigations.len() + (
        if text::spec_tokens(line).len() > 0 && text::spec_tokens(line)[0] == "-1"@ {
            1int
        } else {
            0int
        }),
{
    reveal_strlit("-1");
    assert("-1"@[0] == '-');
    reveal_strlit("FO");
    assert("FO"@[0] == 'F');
    assert("FO"@ != "-1"@);
    reveal_strlit("KJ");
    assert("KJ"@[0] == 'K');
    assert("KJ"@ != "-1"@);
    reveal_strlit("OM");
    assert("OM"@[0] == 'O');
    assert("OM"@ != "-1"@);
    reveal_strlit("ML");
    assert("ML"@[0] == 'M');
    assert("ML"@ != "-1"@);
    reveal_strlit("OR");
    assert("OR"@[0] == 'O');
    assert("OR"@ != "-1"@);
    reveal_strlit("TY");
    assert("TY"@[0] == 'T');
    assert("TY"@ != "-1"@);
    reveal_strlit("PK");
    assert("PK"@[0] == 'P');
    assert("PK"@ != "-1"@);
    reveal_strlit("TT");
    assert("TT"@[0] == 'T');
    assert("TT"@ != "-1"@);
    reveal_strlit("LA");
    assert("LA"@[0] == 'L');
    assert("LA"@ != "-1"@);
    reveal_strlit("XY");
    assert("XY"@[0] == 'X');
    assert("XY"@ != "-1"@);
    reveal_strlit("LN");
    assert("LN"@[0] == 'L');
    assert("LN"@ != "-1"@);
}

/// A file yields exactly one closed investigation per terminator line, in
/// input order; no investigation is emitted without its terminator.
pub proof fn lemma_one_investigation_per_terminator(lines: Seq<Seq<char>>, init: ParseState)
    ensures
        spec_fold(lines, init).file.investigations.len() == init.file.investigations.len()
            + spec_terminator_count(lines),
    decreases lines.len(),
{
    if lines.len() > 0 {
        lemma_one_investigation_per_terminator(lines.drop_last(), init);
        lemma_step_emits_on_terminator(spec_fold(lines.drop_last(), init), lines.last());
    }
}

/// A line whose leading token is no record code and no numeric pattern
/// leaves the dispatcher's state exactly as it was.
pub proof fn lemma_unrecognized_line_ignored(s: ParseState, line: Seq<char>)
    requires
        text::spec_tokens(line).len() > 0,
        !spec_known_code(text::spec_tokens(line)[0]),
        !num::spec_is_decimal_token(text::spec_tokens(line)[0]),
    ensures
        spec_step(s, line) == s,
{
}

/// A line with no tokens leaves the dispatcher's state exactly as it was.
pub proof fn lemma_blank_line_ignored(s: ParseState, line: Seq<char>)
    requires
        text::spec_tokens(line).len() == 0,
    ensures
        spec_step(s, line) == s,
{
}


impl InfraFile {
    /// Reads the positional column `index`, `Missing` past the end.
    fn parse_value<T: TryParse>(params: &Vec<String>, index: usize) -> (r: ParseResult<T>)
        ensures
            r.deep_view() == spec_parse_value::<T>(params.deep_view(), index as int),
    {
        if index < params.len() {
            let r = ParseResult::<T>::parse(params[index].as_str());
            proof {
                assert(params.deep_view()[index as int] == params@[index as int].deep_view());
            }
            r
        } else {
            ParseResult::Missing
        }
    }

    fn parse_fo(infra: &mut InfraFile, rest: &Vec<String>)
        ensures
            final(infra).deep_view() == spec_fo(old(infra).deep_view(), rest.deep_view()),
    {
        infra.format.version = Self::parse_value::<String>(rest, 0);
        infra.format.used_software = Self::parse_value::<String>(rest, 1);
        infra.format.software_version = Self::parse_value::<String>(rest, 2);
        proof {
            assert(infra.deep_view() =~~= spec_fo(old(infra).deep_view(), rest.deep_view()));
        }
    }

    fn parse_kj(infra: &mut InfraFile, rest: &Vec<String>)
        ensures
            final(infra).deep_view() == spec_kj(old(infra).deep_view(), rest.deep_view()),
    {
        infra.spatial.coordinate_system = Self::parse_value::<CoordinateSystem>(rest, 0);
        infra.spatial.elevation_system = Self::parse_value::<ElevationSystem>(rest, 1);
        proof {
            assert(infra.deep_view() =~~= spec_kj(old(infra).deep_view(), rest.deep_view()));
        }
    }

    fn parse_om(inv: &mut Investigation, rest: &Vec<String>)
        ensures
            final(inv).deep_view() == spec_om(old(inv).deep_view(), rest.deep_view()),
    {
        inv.organisations.owner_name = Self::parse_value::<String>(rest, 0);
        proof {
            assert(inv.deep_view() =~~= spec_om(old(inv).deep_view(), rest.deep_view()));
        }
    }

    fn parse_ml(inv: &mut Investigation, rest: &Vec<String>)
        ensures
            final(inv).deep_view() == spec_ml(old(inv).deep_view(), rest.deep_view()),
    {
        inv.classification.name = Self::parse_value::<ClassificationName>(rest, 0);
        proof {
            assert(inv.deep_view() =~~= spec_ml(old(inv).deep_view(), rest.deep_view()));
        }
    }

    fn parse_or(inv: &mut Investigation, rest: &Vec<String>)
        ensures
            final(inv).deep_view() == spec_or(old(inv).deep_view(), rest.deep_view()),
    {
        inv.organisations.investigator_name = Self::parse_value::<String>(rest, 0);
        proof {
            assert(inv.deep_view() =~~= spec_or(old(inv).deep_view(), rest.deep_view()));
        }
    }

    fn parse_ty(inv: &mut Investigation, rest: &Vec<String>)
        ensures
            final(inv).deep_view() == spec_ty(old(inv).deep_view(), rest.deep_view()),
    {
        inv.work.id = Self::parse_value::<String>(rest, 0);
        inv.work.name = Self::parse_value::<String>(rest, 1);
        proof {
            assert(inv.deep_view() =~~= spec_ty(old(inv).deep_view(), rest.deep_view()));
        }
    }

    fn parse_pk(inv: &mut Investigation, rest: &Vec<String>)
        ensures
            final(inv).deep_view() == spec_pk(old(inv).deep_view(), rest.deep_view()),
    {
        inv.record.number = Self::parse_value::<i32>(rest, 0);
        inv.record.driller = Self::parse_value::<String>(rest, 1);
        inv.record.inspector = Self::parse_value::<String>(rest, 2);
        inv.record.processor = Self::parse_value::<String>(rest, 3);
        inv.record.digitalized = Self::parse_value::<Digitized>(rest, 4);
        inv.record.condition = Self::parse_value::<String>(rest, 5);
        proof {
            assert(inv.deep_view() =~~= spec_pk(old(inv).deep_view(), rest.deep_view()));
        }
    }

    fn parse_tt(inv: &mut Investigation, rest: &Vec<String>)
        ensures
            final(inv).deep_view() == spec_tt(old(inv).deep_view(), rest.deep_view()),
    {
        inv.method.token = Self::parse_value::<MethodToken>(rest, 0);
        inv.method.category = Self::parse_value::<i32>(rest, 1);
        inv.method.id = Self::parse_value::<String>(rest, 2);
        inv.method.standard = Self::parse_value::<String>(rest, 3);
        inv.method.sampler = Self::parse_value::<Sampler>(rest, 4);
        inv.method.specifier = Self::parse_value::<String>(rest, 5);
        proof {
            assert(inv.deep_view() =~~= spec_tt(old(inv).deep_view(), rest.deep_view()));
        }
    }

    fn parse_la(inv: &mut Investigation, rest: &Vec<String>)
        ensures
            final(inv).deep_view() == spec_la(old(inv).deep_view(), rest.deep_view()),
    {
        inv.equipment.number = Self::parse_value::<i32>(rest, 0);
        inv.equipment.description = Self::parse_value::<String>(rest, 1);
        inv.equipment.cone_size = Self::parse_value::<String>(rest, 2);
        proof {
            assert(inv.deep_view() =~~= spec_la(old(inv).deep_view(), rest.deep_view()));
        }
    }

    fn parse_xy(inv: &mut Investigation, rest: &Vec<String>)
        ensures
            final(inv).deep_view() == spec_xy(old(inv).deep_view(), rest.deep_view()),
    {
        inv.coordinates.x = Self::parse_value::<Decimal>(rest, 0);
        inv.coordinates.y = Self::parse_value::<Decimal>(rest, 1);
        inv.coordinates.start_elevation = Self::parse_value::<Decimal>(rest, 2);
        inv.coordinates.date = Self::parse_value::<Date>(rest, 3);
        inv.coordinates.point_id = Self::parse_value::<String>(rest, 4);
        proof {
            assert(inv.deep_view() =~~= spec_xy(old(inv).deep_view(), rest.deep_view()));
        }
    }

    fn parse_ln(inv: &mut Investigation, rest: &Vec<String>)
        ensures
            final(inv).deep_view() == spec_ln(old(inv).deep_view(), rest.deep_view()),
    {
        inv.line.name = Self::parse_value::<String>(rest, 0);
        inv.line.stake = Self::parse_value::<Decimal>(rest, 1);
        inv.line.distance = Self::parse_value::<Decimal>(rest, 2);
        proof {
            assert(inv.deep_view() =~~= spec_ln(old(inv).deep_view(), rest.deep_view()));
        }
    }

    fn parse_gr(inv: &mut Investigation, rest: &Vec<String>)
        ensures
            final(inv).deep_view() == spec_gr(old(inv).deep_view(), rest.deep_view()),
    {
        inv.program.name = Self::parse_value::<String>(rest, 0);
        inv.program.date = Self::parse_value::<Date>(rest, 1);
        inv.program.author = Self::parse_value::<String>(rest, 2);
        proof {
            assert(inv.deep_view() =~~= spec_gr(old(inv).deep_view(), rest.deep_view()));
        }
    }

    fn parse_gl(inv: &mut Investigation, rest: &Vec<String>)
        ensures
            final(inv).deep_view() == spec_gl(old(inv).deep_view(), rest.deep_view()),
    {
        let entry = Self::parse_value::<String>(rest, 0);
        let ghost pre = inv.program.guide.deep_view();
        inv.program.guide.push(entry);
        proof {
            assert(inv.program.guide.deep_view() =~= pre.push(
                spec_parse_value::<String>(rest.deep_view(), 0),
            ));
            assert(inv.deep_view() =~~= spec_gl(old(inv).deep_view(), rest.deep_view()));
        }
    }

    fn parse_at(inv: &mut Investigation, rest: &Vec<String>)
        ensures
            final(inv).deep_view() == spec_at(old(inv).deep_view(), rest.deep_view()),
    {
        inv.depthless_rock_sample.attribute = Self::parse_value::<String>(rest, 0);
        inv.depthless_rock_sample.value = Self::parse_value::<String>(rest, 1);
        proof {
            assert(inv.deep_view() =~~= spec_at(old(inv).deep_view(), rest.deep_view()));
        }
    }

    fn parse_al(inv: &mut Investigation, rest: &Vec<String>)
        ensures
            final(inv).deep_view() == spec_al(old(inv).deep_view(), rest.deep_view()),
    {
        inv.initial_borehole.depth = Self::parse_value::<Decimal>(rest, 0);
        inv.initial_borehole.method = Self::parse_value::<InitialBoreToken>(rest, 1);
        inv.initial_borehole.soil_type = Self::parse_value::<String>(rest, 2);
        proof {
            assert(inv.deep_view() =~~= spec_al(old(inv).deep_view(), rest.deep_view()));
        }
    }

    fn parse_zp(inv: &mut Investigation, rest: &Vec<String>)
        ensures
            final(inv).deep_view() == spec_zp(old(inv).deep_view(), rest.deep_view()),
    {
        inv.standpipe.top_elevation = Self::parse_value::<Decimal>(rest, 0);
        inv.standpipe.ground_elevation = Self::parse_value::<Decimal>(rest, 1);
        inv.standpipe.protection_top_elevation = Self::parse_value::<Decimal>(rest, 2);
        inv.standpipe.cover_elevation = Self::parse_value::<Decimal>(rest, 3);
        inv.standpipe.sieve_bottom_elevation = Self::parse_value::<Decimal>(rest, 4);
        proof {
            assert(inv.deep_view() =~~= spec_zp(old(inv).deep_view(), rest.deep_view()));
        }
    }

    fn parse_tp(inv: &mut Investigation, rest: &Vec<String>)
        ensures
            final(inv).deep_view() == spec_tp(old(inv).deep_view(), rest.deep_view()),
    {
        inv.standpipe.upper_structure = Self::parse_value::<String>(rest, 0);
        inv.standpipe.sieve_length = Self::parse_value::<Decimal>(rest, 1);
        inv.standpipe.sieve_type = Self::parse_value::<String>(rest, 2);
        inv.standpipe.diameter = Self::parse_value::<Decimal>(rest, 3);
        inv.standpipe.material = Self::parse_value::<String>(rest, 4);
        proof {
            assert(inv.deep_view() =~~= spec_tp(old(inv).deep_view(), rest.deep_view()));
        }
    }

    fn parse_lp(inv: &mut Investigation, rest: &Vec<String>)
        ensures
            final(inv).deep_view() == spec_lp(old(inv).deep_view(), rest.deep_view()),
    {
        inv.standpipe.measure_point = Self::parse_value::<String>(rest, 0);
        inv.standpipe.details = Self::parse_value::<String>(rest, 1);
        inv.standpipe.locked = Self::parse_value::<String>(rest, 2);
        inv.standpipe.lock_owner = Self::parse_value::<String>(rest, 3);
        inv.standpipe.installer = Self::parse_value::<String>(rest, 4);
        proof {
            assert(inv.deep_view() =~~= spec_lp(old(inv).deep_view(), rest.deep_view()));
        }
    }

    fn parse_hm(inv: &mut Investigation, rest: &Vec<String>)
        ensures
            final(inv).deep_view() == spec_annotate(
                old(inv).deep_view(),
                rest.deep_view(),
                AnnotationKind::Note,
            ),
    {
        let combined = ParseResult::Parsed(text::join_spaces(rest));
        let ghost pre_obs = inv.observations.deep_view();
        if let Some(mut last_obs) = inv.observations.pop() {
            proof {
                assert(last_obs.deep_view() == pre_obs.last());
                assert(inv.observations.deep_view() =~= pre_obs.drop_last());
            }
            let ghost pre_list = last_obs.notes.deep_view();
            last_obs.notes.push(combined);
            proof {
                assert(last_obs.notes.deep_view() =~= pre_list.push(
                    ParseResultV::Parsed(text::spec_join_spaces(rest.deep_view())),
                ));
            }
            inv.observations.push(last_obs);
            proof {
                assert(inv.observations.deep_view() =~~= pre_obs.update(
                    pre_obs.len() - 1,
                    ObservationV {
                        notes: pre_obs.last().notes.push(
                            ParseResultV::Parsed(text::spec_join_spaces(rest.deep_view())),
                        ),
                        ..pre_obs.last()
                    },
                ));
            }
        } else {
            let ghost pre_notes = inv.notes.deep_view();
            inv.notes.push(combined);
            proof {
                assert(inv.notes.deep_view() =~= pre_notes.push(
                    ParseResultV::Parsed(text::spec_join_spaces(rest.deep_view())),
                ));
            }
        }
        proof {
            assert(inv.deep_view() =~~= spec_annotate(
                old(inv).deep_view(),
                rest.deep_view(),
                AnnotationKind::Note,
            ));
        }
    }

    fn parse_tx(inv: &mut Investigation, rest: &Vec<String>)
        ensures
            final(inv).deep_view() == spec_annotate(
                old(inv).deep_view(),
                rest.deep_view(),
                AnnotationKind::FreeText,
            ),
    {
        let combined = ParseResult::Parsed(text::join_spaces(rest));
        let ghost pre_obs = inv.observations.deep_view();
        if let Some(mut last_obs) = inv.observations.pop() {
            proof {
                assert(last_obs.deep_view() == pre_obs.last());
                assert(inv.observations.deep_view() =~= pre_obs.drop_last());
            }
            let ghost pre_list = last_obs.free_text.deep_view();
            last_obs.free_text.push(combined);
            proof {
                assert(last_obs.free_text.deep_view() =~= pre_list.push(
                    ParseResultV::Parsed(text::spec_join_spaces(rest.deep_view())),
                ));
            }
            inv.observations.push(last_obs);
            proof {
                assert(inv.observations.deep_view() =~~= pre_obs.update(
                    pre_obs.len() - 1,
                    ObservationV {
                        free_text: pre_obs.last().free_text.push(
                            ParseResultV::Parsed(text::spec_join_spaces(rest.deep_view())),
                        ),
                        ..pre_obs.last()
                    },
                ));
            }
        } else {
            let ghost pre_texts = inv.free_text.deep_view();
            inv.free_text.push(combined);
            proof {
                assert(inv.free_text.deep_view() =~= pre_texts.push(
                    ParseResultV::Parsed(text::spec_join_spaces(rest.deep_view())),
                ));
            }
        }
        proof {
            assert(inv.deep_view() =~~= spec_annotate(
                old(inv).deep_view(),
                rest.deep_view(),
                AnnotationKind::FreeText,
            ));
        }
    }

    fn parse_ht(inv: &mut Investigation, rest: &Vec<String>)
        ensures
            final(inv).deep_view() == spec_annotate(
                old(inv).deep_view(),
                rest.deep_view(),
                AnnotationKind::HiddenText,
            ),
    {
        let combined = ParseResult::Parsed(text::join_spaces(rest));
        let ghost pre_obs = inv.observations.deep_view();
        if let Some(mut last_obs) = inv.observations.pop() {
            proof {
                assert(last_obs.deep_view() == pre_obs.last());
                assert(inv.observations.deep_view() =~= pre_obs.drop_last());
            }
            let ghost pre_list = last_obs.hidden_text.deep_view();
            last_obs.hidden_text.push(combined);
            proof {
                assert(last_obs.hidden_text.deep_view() =~= pre_list.push(
                    ParseResultV::Parsed(text::spec_join_spaces(rest.deep_view())),
                ));
            }
            inv.observations.push(last_obs);
            proof {
                assert(inv.observations.deep_view() =~~= pre_obs.update(
                    pre_obs.len() - 1,
                    ObservationV {
                        hidden_text: pre_obs.last().hidden_text.push(
                            ParseResultV::Parsed(text::spec_join_spaces(rest.deep_view())),
                        ),
                        ..pre_obs.last()
                    },
                ));
            }
        } else {
            let ghost pre_texts = inv.hidden_text.deep_view();
            inv.hidden_text.push(combined);
            proof {
                assert(inv.hidden_text.deep_view() =~= pre_texts.push(
                    ParseResultV::Parsed(text::spec_join_spaces(rest.deep_view())),
                ));
            }
        }
        proof {
            assert(inv.deep_view() =~~= spec_annotate(
                old(inv).deep_view(),
                rest.deep_view(),
                AnnotationKind::HiddenText,
            ));
        }
    }

    fn parse_em(inv: &mut Investigation, rest: &Vec<String>)
        ensures
            final(inv).deep_view() == spec_em(old(inv).deep_view(), rest.deep_view()),
    {
        let combined = ParseResult::Parsed(text::join_spaces(rest));
        let ghost pre_obs = inv.observations.deep_view();
        if let Some(mut last_obs) = inv.observations.pop() {
            proof {
                assert(last_obs.deep_view() == pre_obs.last());
                assert(inv.observations.deep_view() =~= pre_obs.drop_last());
            }
            let ghost pre_list = last_obs.unofficial_soil_type.deep_view();
            last_obs.unofficial_soil_type.push(combined);
            proof {
                assert(last_obs.unofficial_soil_type.deep_view() =~= pre_list.push(
                    ParseResultV::Parsed(text::spec_join_spaces(rest.deep_view())),
                ));
            }
            inv.observations.push(last_obs);
            proof {
                assert(inv.observations.deep_view() =~~= pre_obs.update(
                    pre_obs.len() - 1,
                    ObservationV {
                        unofficial_soil_type: pre_obs.last().unofficial_soil_type.push(
                            ParseResultV::Parsed(text::spec_join_spaces(rest.deep_view())),
                        ),
                        ..pre_obs.last()
                    },
                ));
            }
        }
        proof {
            assert(inv.deep_view() =~~= spec_em(old(inv).deep_view(), rest.deep_view()));
        }
    }

    /// Appends `lab` to the last observation's list where that observation
    /// is a sample variant, and drops it anywhere else.
    fn attach_lab(inv: &mut Investigation, lab: LabResult)
        ensures
            final(inv).deep_view() == spec_attach_lab(old(inv).deep_view(), lab.deep_view()),
    {
        let ghost pre_obs = inv.observations.deep_view();
        if let Some(mut last_obs) = inv.observations.pop() {
            proof {
                assert(last_obs.deep_view() == pre_obs.last());
                assert(inv.observations.deep_view() =~= pre_obs.drop_last());
            }
            let ghost pre_values = last_obs.values.deep_view();
            let values = last_obs.values;
            last_obs.values = match values {
                ObservationValues::NO { start_depth, sample_id, end_depth, soil_type, lab_values } => {
                    let mut lab_values = lab_values;
                    let ghost pre_labs = lab_values.deep_view();
                    lab_values.push(ParseResult::Parsed(lab));
                    proof {
                        assert(lab_values.deep_view() =~= pre_labs.push(
                            ParseResultV::Parsed(lab.deep_view()),
                        ));
                    }
                    ObservationValues::NO { start_depth, sample_id, end_depth, soil_type, lab_values }
                }
                ObservationValues::NE { start_depth, sample_id, end_depth, soil_type, lab_values } => {
                    let mut lab_values = lab_values;
                    let ghost pre_labs = lab_values.deep_view();
                    lab_values.push(ParseResult::Parsed(lab));
                    proof {
                        assert(lab_values.deep_view() =~= pre_labs.push(
                            ParseResultV::Parsed(lab.deep_view()),
                        ));
                    }
                    ObservationValues::NE { start_depth, sample_id, end_depth, soil_type, lab_values }
                }
                other => other,
            };
            inv.observations.push(last_obs);
            proof {
                if pre_values matches ObservationValuesV::NO { .. } || pre_values
                    matches ObservationValuesV::NE { .. } {
                    assert(inv.observations.deep_view() =~~= spec_attach_lab(
                        old(inv).deep_view(),
                        lab.deep_view(),
                    ).observations);
                } else {
                    assert(inv.observations.deep_view() =~= pre_obs.drop_last().push(
                        pre_obs.last(),
                    ));
                    assert(pre_obs.drop_last().push(pre_obs.last()) =~= pre_obs);
                }
            }
        }
        proof {
            assert(inv.deep_view() =~~= spec_attach_lab(old(inv).deep_view(), lab.deep_view()));
        }
    }

    fn parse_lb(inv: &mut Investigation, rest: &Vec<String>)
        ensures
            final(inv).deep_view() == spec_lb(old(inv).deep_view(), rest.deep_view()),
    {
        let lab = LabResult::Other {
            attribute: Self::parse_value::<String>(rest, 0),
            result: Self::parse_value::<String>(rest, 1),
            unit: Self::parse_value::<String>(rest, 2),
        };
        Self::attach_lab(inv, lab);
    }

    fn parse_rk(inv: &mut Investigation, rest: &Vec<String>)
        ensures
            final(inv).deep_view() == spec_rk(old(inv).deep_view(), rest.deep_view()),
    {
        let lab = LabResult::GrainSize {
            grain_mm: Self::parse_value::<Decimal>(rest, 0),
            pass_percent: Self::parse_value::<Decimal>(rest, 1),
        };
        Self::attach_lab(inv, lab);
    }

    fn parse_end(infra: &mut InfraFile, inv: &mut Investigation, rest: &Vec<String>)
        ensures
            ({
                let s = spec_end(
                    ParseState { file: old(infra).deep_view(), inv: old(inv).deep_view() },
                    rest.deep_view(),
                );
                final(infra).deep_view() == s.file && final(inv).deep_view() == s.inv
            }),
    {
        inv.termination.token = Self::parse_value::<TerminationToken>(rest, 0);
        let mut fresh = Investigation::new();
        core::mem::swap(inv, &mut fresh);
        let ghost pre_invs = infra.investigations.deep_view();
        infra.investigations.push(fresh);
        proof {
            let s = spec_end(
                ParseState { file: old(infra).deep_view(), inv: old(inv).deep_view() },
                rest.deep_view(),
            );
            assert(infra.investigations.deep_view() =~= pre_invs.push(
                fresh.deep_view(),
            ));
            assert(fresh.deep_view() =~~= InvestigationV {
                termination: TerminationV {
                    token: spec_parse_value::<TerminationToken>(rest.deep_view(), 0),
                },
                ..old(inv).deep_view()
            });
            assert(infra.deep_view() =~~= s.file);
            assert(inv.deep_view() =~~= s.inv);
        }
    }

    /// Splits the dual-encoded second column of a `PA` row into its load
    /// and hit-count halves.
    fn pa_split(second: ParseResult<Decimal>) -> (r: (ParseResult<Decimal>, ParseResult<i32>))
        ensures
            (r.0.deep_view(), r.1.deep_view()) == spec_pa_split(second.deep_view()),
    {
        match second {
            ParseResult::Parsed(d) => {
                if d.micro >= 0 {
                    (ParseResult::Parsed(d), ParseResult::Missing)
                } else {
                    let mag: u64 = if d.micro == i64::MIN {
                        9_223_372_036_854_775_808u64
                    } else {
                        (-d.micro) as u64
                    };
                    proof {
                        assert(mag as int == -(d.micro as int));
                    }
                    let units: u64 = mag / 1_000_000;
                    let hits: i32 = if units > 2_147_483_647 {
                        2_147_483_647
                    } else {
                        units as i32
                    };
                    (ParseResult::Missing, ParseResult::Parsed(hits))
                }
            }
            _ => (ParseResult::Missing, ParseResult::Missing),
        }
    }

    fn parse_pa(inv: &mut Investigation, params: &Vec<String>)
        ensures
            final(inv).deep_view() == spec_pa(old(inv).deep_view(), params.deep_view()),
    {
        let split = Self::pa_split(Self::parse_value::<Decimal>(params, 1));
        let values = ObservationValues::PA {
            depth: Self::parse_value::<Decimal>(params, 0),
            load: split.0,
            hits: split.1,
            half_turns: Self::parse_value::<i32>(params, 2),
            soil_type: Self::parse_value::<String>(params, 3),
        };
        let obs = Observation::with_values(values);
        let ghost pre = inv.observations.deep_view();
        inv.observations.push(obs);
        proof {
            assert(inv.observations.deep_view() =~~= pre.push(obs.deep_view()));
            assert(inv.deep_view() =~~= spec_pa(old(inv).deep_view(), params.deep_view()));
        }
    }

    fn parse_hp(inv: &mut Investigation, params: &Vec<String>)
        ensures
            final(inv).deep_view() == spec_hp(old(inv).deep_view(), params.deep_view()),
    {
        let mut hits: ParseResult<i32> = ParseResult::Missing;
        let mut pressure: ParseResult<Decimal> = ParseResult::Missing;
        if params.len() > 3 {
            proof {
                assert(params.deep_view()[3] == params@[3]@);
            }
            if text::str_eq(params[3].as_str(), "H") {
                hits = Self::parse_value::<i32>(params, 1);
            } else if text::str_eq(params[3].as_str(), "P") {
                pressure = Self::parse_value::<Decimal>(params, 1);
            }
        }
        proof {
            reveal_strlit("H");
            reveal_strlit("P");
            assert("H"@[0] == 'H');
            assert("P"@[0] == 'P');
            assert("H"@ != "P"@);
        }
        let values = ObservationValues::HP {
            depth: Self::parse_value::<Decimal>(params, 0),
            hits,
            pressure,
            torque: Self::parse_value::<Decimal>(params, 2),
            mode: Self::parse_value::<String>(params, 3),
            soil_type: Self::parse_value::<String>(params, 4),
        };
        let obs = Observation::with_values(values);
        let ghost pre = inv.observations.deep_view();
        inv.observations.push(obs);
        proof {
            assert(inv.observations.deep_view() =~~= pre.push(obs.deep_view()));
            assert(inv.deep_view() =~~= spec_hp(old(inv).deep_view(), params.deep_view()));
        }
    }

    fn parse_pi(inv: &mut Investigation, params: &Vec<String>)
        ensures
            final(inv).deep_view() == spec_pi(old(inv).deep_view(), params.deep_view()),
    {
        let values = ObservationValues::PI {
            depth: Self::parse_value::<Decimal>(params, 0),
            soil_type: Self::parse_value::<String>(params, 1),
        };
        let obs = Observation::with_values(values);
        let ghost pre = inv.observations.deep_view();
        inv.observations.push(obs);
        proof {
            assert(inv.observations.deep_view() =~~= pre.push(obs.deep_view()));
            assert(inv.deep_view() =~~= spec_pi(old(inv).deep_view(), params.deep_view()));
        }
    }

    fn parse_ly(inv: &mut Investigation, params: &Vec<String>)
        ensures
            final(inv).deep_view() == spec_ly(old(inv).deep_view(), params.deep_view()),
    {
        let values = ObservationValues::LY {
            depth: Self::parse_value::<Decimal>(params, 0),
            load: Self::parse_value::<Decimal>(params, 1),
            hits: Self::parse_value::<i32>(params, 2),
            soil_type: Self::parse_value::<String>(params, 3),
        };
        let obs = Observation::with_values(values);
        let ghost pre = inv.observations.deep_view();
        inv.observations.push(obs);
        proof {
            assert(inv.observations.deep_view() =~~= pre.push(obs.deep_view()));
            assert(inv.deep_view() =~~= spec_ly(old(inv).deep_view(), params.deep_view()));
        }
    }

    fn parse_si(inv: &mut Investigation, params: &Vec<String>)
        ensures
            final(inv).deep_view() == spec_si(old(inv).deep_view(), params.deep_view()),
    {
        let values = ObservationValues::SI {
            depth: Self::parse_value::<Decimal>(params, 0),
            shear_str: Self::parse_value::<Decimal>(params, 1),
            disturb_shear_str: Self::parse_value::<Decimal>(params, 2),
            sensitivity: Self::parse_value::<Decimal>(params, 3),
            residual_str: Self::parse_value::<Decimal>(params, 4),
        };
        let obs = Observation::with_values(values);
        let ghost pre = inv.observations.deep_view();
        inv.observations.push(obs);
        proof {
            assert(inv.observations.deep_view() =~~= pre.push(obs.deep_view()));
            assert(inv.deep_view() =~~= spec_si(old(inv).deep_view(), params.deep_view()));
        }
    }

    fn parse_he(inv: &mut Investigation, params: &Vec<String>)
        ensures
            final(inv).deep_view() == spec_he(old(inv).deep_view(), params.deep_view()),
    {
        let values = ObservationValues::HE {
            depth: Self::parse_value::<Decimal>(params, 0),
            hits: Self::parse_value::<i32>(params, 1),
            soil_type: Self::parse_value::<String>(params, 2),
        };
        let obs = Observation::with_values(values);
        let ghost pre = inv.observations.deep_view();
        inv.observations.push(obs);
        proof {
            assert(inv.observations.deep_view() =~~= pre.push(obs.deep_view()));
            assert(inv.deep_view() =~~= spec_he(old(inv).deep_view(), params.deep_view()));
        }
    }

    fn parse_hk(inv: &mut Investigation, params: &Vec<String>)
        ensures
            final(inv).deep_view() == spec_hk(old(inv).deep_view(), params.deep_view()),
    {
        let values = ObservationValues::HK {
            depth: Self::parse_value::<Decimal>(params, 0),
            hits: Self::parse_value::<i32>(params, 1),
            torque: Self::parse_value::<Decimal>(params, 2),
            soil_type: Self::parse_value::<String>(params, 3),
        };
        let obs = Observation::with_values(values);
        let ghost pre = inv.observations.deep_view();
        inv.observations.push(obs);
        proof {
            assert(inv.observations.deep_view() =~~= pre.push(obs.deep_view()));
            assert(inv.deep_view() =~~= spec_hk(old(inv).deep_view(), params.deep_view()));
        }
    }

    fn parse_pt(inv: &mut Investigation, params: &Vec<String>)
        ensures
            final(inv).deep_view() == spec_pt(old(inv).deep_view(), params.deep_view()),
    {
        let values = ObservationValues::PT {
            depth: Self::parse_value::<Decimal>(params, 0),
            soil_type: Self::parse_value::<String>(params, 1),
        };
        let obs = Observation::with_values(values);
        let ghost pre = inv.observations.deep_view();
        inv.observations.push(obs);
        proof {
            assert(inv.observations.deep_view() =~~= pre.push(obs.deep_view()));
            assert(inv.deep_view() =~~= spec_pt(old(inv).deep_view(), params.deep_view()));
        }
    }

    fn parse_tr(inv: &mut Investigation, params: &Vec<String>)
        ensures
            final(inv).deep_view() == spec_tr(old(inv).deep_view(), params.deep_view()),
    {
        let values = ObservationValues::TR {
            depth: Self::parse_value::<Decimal>(params, 0),
            soil_type: Self::parse_value::<String>(params, 1),
        };
        let obs = Observation::with_values(values);
        let ghost pre = inv.observations.deep_view();
        inv.observations.push(obs);
        proof {
            assert(inv.observations.deep_view() =~~= pre.push(obs.deep_view()));
            assert(inv.deep_view() =~~= spec_tr(old(inv).deep_view(), params.deep_view()));
        }
    }

    fn parse_pr(inv: &mut Investigation, params: &Vec<String>)
        ensures
            final(inv).deep_view() == spec_pr(old(inv).deep_view(), params.deep_view()),
    {
        let values = ObservationValues::PR {
            depth: Self::parse_value::<Decimal>(params, 0),
            total_resistance: Self::parse_value::<Decimal>(params, 1),
            sleeve_friction: Self::parse_value::<Decimal>(params, 2),
            soil_type: Self::parse_value::<String>(params, 3),
        };
        let obs = Observation::with_values(values);
        let ghost pre = inv.observations.deep_view();
        inv.observations.push(obs);
        proof {
            assert(inv.observations.deep_view() =~~= pre.push(obs.deep_view()));
            assert(inv.deep_view() =~~= spec_pr(old(inv).deep_view(), params.deep_view()));
        }
    }

    fn parse_cp(inv: &mut Investigation, params: &Vec<String>)
        ensures
            final(inv).deep_view() == spec_cp(old(inv).deep_view(), params.deep_view()),
    {
        let values = ObservationValues::CP {
            depth: Self::parse_value::<Decimal>(params, 0),
            total_resistance: Self::parse_value::<Decimal>(params, 1),
            sleeve_friction: Self::parse_value::<Decimal>(params, 2),
            tip_resistance: Self::parse_value::<Decimal>(params, 3),
            soil_type: Self::parse_value::<String>(params, 4),
        };
        let obs = Observation::with_values(values);
        let ghost pre = inv.observations.deep_view();
        inv.observations.push(obs);
        proof {
            assert(inv.observations.deep_view() =~~= pre.push(obs.deep_view()));
            assert(inv.deep_view() =~~= spec_cp(old(inv).deep_view(), params.deep_view()));
        }
    }

    fn parse_cu(inv: &mut Investigation, params: &Vec<String>)
        ensures
            final(inv).deep_view() == spec_cu(old(inv).deep_view(), params.deep_view()),
    {
        let values = ObservationValues::CU {
            depth: Self::parse_value::<Decimal>(params, 0),
            total_resistance: Self::parse_value::<Decimal>(params, 1),
            sleeve_friction: Self::parse_value::<Decimal>(params, 2),
            tip_resistance: Self::parse_value::<Decimal>(params, 3),
            pore_water_pressure: Self::parse_value::<Decimal>(params, 4),
            soil_type: Self::parse_value::<String>(params, 5),
        };
        let obs = Observation::with_values(values);
        let ghost pre = inv.observations.deep_view();
        inv.observations.push(obs);
        proof {
            assert(inv.observations.deep_view() =~~= pre.push(obs.deep_view()));
            assert(inv.deep_view() =~~= spec_cu(old(inv).deep_view(), params.deep_view()));
        }
    }

    fn parse_po(inv: &mut Investigation, params: &Vec<String>)
        ensures
            final(inv).deep_view() == spec_po(old(inv).deep_view(), params.deep_view()),
    {
        let values = ObservationValues::PO {
            depth: Self::parse_value::<Decimal>(params, 0),
            time: Self::parse_value::<i32>(params, 1),
            soil_type: Self::parse_value::<String>(params, 2),
        };
        let obs = Observation::with_values(values);
        let ghost pre = inv.observations.deep_view();
        inv.observations.push(obs);
        proof {
            assert(inv.observations.deep_view() =~~= pre.push(obs.deep_view()));
            assert(inv.deep_view() =~~= spec_po(old(inv).deep_view(), params.deep_view()));
        }
    }

    fn parse_mw(inv: &mut Investigation, params: &Vec<String>)
        ensures
            final(inv).deep_view() == spec_mw(old(inv).deep_view(), params.deep_view()),
    {
        let values = ObservationValues::MW {
            depth: Self::parse_value::<Decimal>(params, 0),
            advance_rate: Self::parse_value::<Decimal>(params, 1),
            compressive_force: Self::parse_value::<Decimal>(params, 2),
            flushing_pressure: Self::parse_value::<Decimal>(params, 3),
            water_consumption: Self::parse_value::<Decimal>(params, 4),
            torque: Self::parse_value::<Decimal>(params, 5),
            rotation_speed: Self::parse_value::<Decimal>(params, 6),
            hits: Self::parse_value::<String>(params, 7),
            soil_type: Self::parse_value::<String>(params, 8),
        };
        let obs = Observation::with_values(values);
        let ghost pre = inv.observations.deep_view();
        inv.observations.push(obs);
        proof {
            assert(inv.observations.deep_view() =~~= pre.push(obs.deep_view()));
            assert(inv.deep_view() =~~= spec_mw(old(inv).deep_view(), params.deep_view()));
        }
    }

    fn parse_vp(inv: &mut Investigation, params: &Vec<String>)
        ensures
            final(inv).deep_view() == spec_vp(old(inv).deep_view(), params.deep_view()),
    {
        let values = ObservationValues::VP {
            surface_elev: Self::parse_value::<Decimal>(params, 0),
            date: Self::parse_value::<Date>(params, 1),
            pipe_top_elev: Self::parse_value::<Decimal>(params, 2),
            pipe_bot_elev: Self::parse_value::<Decimal>(params, 3),
            sieve_len: Self::parse_value::<Decimal>(params, 4),
            measurer: Self::parse_value::<String>(params, 5),
        };
        let obs = Observation::with_values(values);
        let ghost pre = inv.observations.deep_view();
        inv.observations.push(obs);
        proof {
            assert(inv.observations.deep_view() =~~= pre.push(obs.deep_view()));
            assert(inv.deep_view() =~~= spec_vp(old(inv).deep_view(), params.deep_view()));
        }
    }

    fn parse_vo(inv: &mut Investigation, params: &Vec<String>)
        ensures
            final(inv).deep_view() == spec_vo(old(inv).deep_view(), params.deep_view()),
    {
        let values = ObservationValues::VO {
            surface_elev: Self::parse_value::<Decimal>(params, 0),
            date: Self::parse_value::<Date>(params, 1),
            pipe_top_elev: Self::parse_value::<Decimal>(params, 2),
            pipe_bot_elev: Self::parse_value::<Decimal>(params, 3),
            sieve_len: Self::parse_value::<Decimal>(params, 4),
            measurer: Self::parse_value::<String>(params, 5),
        };
        let obs = Observation::with_values(values);
        let ghost pre = inv.observations.deep_view();
        inv.observations.push(obs);
        proof {
            assert(inv.observations.deep_view() =~~= pre.push(obs.deep_view()));
            assert(inv.deep_view() =~~= spec_vo(old(inv).deep_view(), params.deep_view()));
        }
    }

    fn parse_vk(inv: &mut Investigation, params: &Vec<String>)
        ensures
            final(inv).deep_view() == spec_vk(old(inv).deep_view(), params.deep_view()),
    {
        let values = ObservationValues::VK {
            surface_elev: Self::parse_value::<Decimal>(params, 0),
            date: Self::parse_value::<Date>(params, 1),
            water_type: Self::parse_value::<String>(params, 2),
        };
        let obs = Observation::with_values(values);
        let ghost pre = inv.observations.deep_view();
        inv.observations.push(obs);
        proof {
            assert(inv.observations.deep_view() =~~= pre.push(obs.deep_view()));
            assert(inv.deep_view() =~~= spec_vk(old(inv).deep_view(), params.deep_view()));
        }
    }

    fn parse_vpk(inv: &mut Investigation, params: &Vec<String>)
        ensures
            final(inv).deep_view() == spec_vpk(old(inv).deep_view(), params.deep_view()),
    {
        let values = ObservationValues::VPK {
            surface_elev: Self::parse_value::<Decimal>(params, 0),
            date: Self::parse_value::<Date>(params, 1),
        };
        let obs = Observation::with_values(values);
        let ghost pre = inv.observations.deep_view();
        inv.observations.push(obs);
        proof {
            assert(inv.observations.deep_view() =~~= pre.push(obs.deep_view()));
            assert(inv.deep_view() =~~= spec_vpk(old(inv).deep_view(), params.deep_view()));
        }
    }

    fn parse_hv(inv: &mut Investigation, params: &Vec<String>)
        ensures
            final(inv).deep_view() == spec_hv(old(inv).deep_view(), params.deep_view()),
    {
        let values = ObservationValues::HV {
            depth: Self::parse_value::<Decimal>(params, 0),
            pressure: Self::parse_value::<Decimal>(params, 1),
            date: Self::parse_value::<Date>(params, 2),
            measurer: Self::parse_value::<String>(params, 3),
        };
        let obs = Observation::with_values(values);
        let ghost pre = inv.observations.deep_view();
        inv.observations.push(obs);
        proof {
            assert(inv.observations.deep_view() =~~= pre.push(obs.deep_view()));
            assert(inv.deep_view() =~~= spec_hv(old(inv).deep_view(), params.deep_view()));
        }
    }

    fn parse_hu(inv: &mut Investigation, params: &Vec<String>)
        ensures
            final(inv).deep_view() == spec_hu(old(inv).deep_view(), params.deep_view()),
    {
        let values = ObservationValues::HU {
            surface_elev: Self::parse_value::<Decimal>(params, 0),
            date: Self::parse_value::<Date>(params, 1),
            pipe_top_elev: Self::parse_value::<Decimal>(params, 2),
            pipe_bot_elev: Self::parse_value::<Decimal>(params, 3),
            sieve_len: Self::parse_value::<Decimal>(params, 4),
            measurer: Self::parse_value::<String>(params, 5),
        };
        let obs = Observation::with_values(values);
        let ghost pre = inv.observations.deep_view();
        inv.observations.push(obs);
        proof {
            assert(inv.observations.deep_view() =~~= pre.push(obs.deep_view()));
            assert(inv.deep_view() =~~= spec_hu(old(inv).deep_view(), params.deep_view()));
        }
    }

    fn parse_ps(inv: &mut Investigation, params: &Vec<String>)
        ensures
            final(inv).deep_view() == spec_ps(old(inv).deep_view(), params.deep_view()),
    {
        let values = ObservationValues::PS {
            depth: Self::parse_value::<Decimal>(params, 0),
            modulus: Self::parse_value::<Decimal>(params, 1),
            fail_pressure: Self::parse_value::<Decimal>(params, 2),
        };
        let obs = Observation::with_values(values);
        let ghost pre = inv.observations.deep_view();
        inv.observations.push(obs);
        proof {
            assert(inv.observations.deep_view() =~~= pre.push(obs.deep_view()));
            assert(inv.deep_view() =~~= spec_ps(old(inv).deep_view(), params.deep_view()));
        }
    }

    fn parse_pm(inv: &mut Investigation, params: &Vec<String>)
        ensures
            final(inv).deep_view() == spec_pm(old(inv).deep_view(), params.deep_view()),
    {
        let values = ObservationValues::PM {
            elev: Self::parse_value::<Decimal>(params, 0),
            date: Self::parse_value::<Date>(params, 1),
            measurer: Self::parse_value::<String>(params, 2),
        };
        let obs = Observation::with_values(values);
        let ghost pre = inv.observations.deep_view();
        inv.observations.push(obs);
        proof {
            assert(inv.observations.deep_view() =~~= pre.push(obs.deep_view()));
            assert(inv.deep_view() =~~= spec_pm(old(inv).deep_view(), params.deep_view()));
        }
    }

    fn parse_ko(inv: &mut Investigation, params: &Vec<String>)
        ensures
            final(inv).deep_view() == spec_ko(old(inv).deep_view(), params.deep_view()),
    {
        let values = ObservationValues::KO {
            depth: Self::parse_value::<Decimal>(params, 0),
            soil_type: Self::parse_value::<String>(params, 1),
            stones: Self::parse_value::<Decimal>(params, 2),
            boulders: Self::parse_value::<i32>(params, 3),
            max_width: Self::parse_value::<Decimal>(params, 4),
            min_width: Self::parse_value::<Decimal>(params, 5),
        };
        let obs = Observation::with_values(values);
        let ghost pre = inv.observations.deep_view();
        inv.observations.push(obs);
        proof {
            assert(inv.observations.deep_view() =~~= pre.push(obs.deep_view()));
            assert(inv.deep_view() =~~= spec_ko(old(inv).deep_view(), params.deep_view()));
        }
    }

    fn parse_ke(inv: &mut Investigation, params: &Vec<String>)
        ensures
            final(inv).deep_view() == spec_ke(old(inv).deep_view(), params.deep_view()),
    {
        let values = ObservationValues::KE {
            start_depth: Self::parse_value::<Decimal>(params, 0),
            end_depth: Self::parse_value::<Decimal>(params, 1),
        };
        let obs = Observation::with_values(values);
        let ghost pre = inv.observations.deep_view();
        inv.observations.push(obs);
        proof {
            assert(inv.observations.deep_view() =~~= pre.push(obs.deep_view()));
            assert(inv.deep_view() =~~= spec_ke(old(inv).deep_view(), params.deep_view()));
        }
    }

    fn parse_kr(inv: &mut Investigation, params: &Vec<String>)
        ensures
            final(inv).deep_view() == spec_kr(old(inv).deep_view(), params.deep_view()),
    {
        let values = ObservationValues::KR {
            start_depth: Self::parse_value::<Decimal>(params, 0),
            end_depth: Self::parse_value::<Decimal>(params, 1),
        };
        let obs = Observation::with_values(values);
        let ghost pre = inv.observations.deep_view();
        inv.observations.push(obs);
        proof {
            assert(inv.observations.deep_view() =~~= pre.push(obs.deep_view()));
            assert(inv.deep_view() =~~= spec_kr(old(inv).deep_view(), params.deep_view()));
        }
    }

    fn parse_no(inv: &mut Investigation, params: &Vec<String>)
        ensures
            final(inv).deep_view() == spec_no(old(inv).deep_view(), params.deep_view()),
    {
        let values = ObservationValues::NO {
            start_depth: Self::parse_value::<Decimal>(params, 0),
            sample_id: Self::parse_value::<String>(params, 1),
            end_depth: Self::parse_value::<Decimal>(params, 2),
            soil_type: Self::parse_value::<String>(params, 3),
            lab_values: Vec::new(),
        };
        let obs = Observation::with_values(values);
        let ghost pre = inv.observations.deep_view();
        inv.observations.push(obs);
        proof {
            assert(inv.observations.deep_view() =~~= pre.push(obs.deep_view()));
            assert(inv.deep_view() =~~= spec_no(old(inv).deep_view(), params.deep_view()));
        }
    }

    fn parse_ne(inv: &mut Investigation, params: &Vec<String>)
        ensures
            final(inv).deep_view() == spec_ne(old(inv).deep_view(), params.deep_view()),
    {
        let values = ObservationValues::NE {
            start_depth: Self::parse_value::<Decimal>(params, 0),
            sample_id: Self::parse_value::<String>(params, 1),
            end_depth: Self::parse_value::<Decimal>(params, 2),
            soil_type: Self::parse_value::<String>(params, 3),
            lab_values: Vec::new(),
        };
        let obs = Observation::with_values(values);
        let ghost pre = inv.observations.deep_view();
        inv.observations.push(obs);
        proof {
            assert(inv.observations.deep_view() =~~= pre.push(obs.deep_view()));
            assert(inv.deep_view() =~~= spec_ne(old(inv).deep_view(), params.deep_view()));
        }
    }

    /// The tokens after the record code.
    fn tail_of(tokens: &Vec<String>) -> (r: Vec<String>)
        requires
            tokens@.len() >= 1,
        ensures
            r.deep_view() == tokens.deep_view().drop_first(),
    {
        let mut r: Vec<String> = Vec::new();
        let mut i: usize = 1;
        proof {
            assert(r.deep_view() =~= tokens.deep_view().subrange(1, 1));
        }
        while i < tokens.len()
            invariant
                1 <= i <= tokens@.len(),
                r.deep_view() == tokens.deep_view().subrange(1, i as int),
            decreases tokens@.len() - i,
        {
            let ghost pre = r.deep_view();
            r.push(tokens[i].clone());
            proof {
                assert(r.deep_view() =~= pre.push(tokens.deep_view()[i as int]));
                assert(pre.push(tokens.deep_view()[i as int]) =~= tokens.deep_view().subrange(
                    1,
                    i as int + 1,
                ));
            }
            i = i + 1;
        }
        proof {
            assert(tokens.deep_view().subrange(1, tokens@.len() as int)
                =~= tokens.deep_view().drop_first());
        }
        r
    }

    /// Applies one input line to the accumulator state, as [`spec_step`]
    /// describes.
    pub fn dispatch_line(infra: &mut InfraFile, inv: &mut Investigation, line: &str)
        ensures
            ({
                let s = spec_step(
                    ParseState { file: old(infra).deep_view(), inv: old(inv).deep_view() },
                    line@,
                );
                final(infra).deep_view() == s.file && final(inv).deep_view() == s.inv
            }),
    {
        let tokens = text::tokenize(line);
        if tokens.len() == 0 {
            return ;
        }
        proof {
            assert(tokens.deep_view()[0] == tokens@[0]@);
        }
        let rest = Self::tail_of(&tokens);
        let code = &tokens[0];
        if text::str_eq(code.as_str(), "FO") {
            Self::parse_fo(infra, &rest);
        } else if text::str_eq(code.as_str(), "KJ") {
            Self::parse_kj(infra, &rest);
        } else if text::str_eq(code.as_str(), "OM") {
            Self::parse_om(inv, &rest);
        } else if text::str_eq(code.as_str(), "ML") {
            Self::parse_ml(inv, &rest);
        } else if text::str_eq(code.as_str(), "OR") {
            Self::parse_or(inv, &rest);
        } else if text::str_eq(code.as_str(), "TY") {
            Self::parse_ty(inv, &rest);
        } else if text::str_eq(code.as_str(), "PK") {
            Self::parse_pk(inv, &rest);
        } else if text::str_eq(code.as_str(), "TT") {
            Self::parse_tt(inv, &rest);
        } else if text::str_eq(code.as_str(), "LA") {
            Self::parse_la(inv, &rest);
        } else if text::str_eq(code.as_str(), "XY") {
            Self::parse_xy(inv, &rest);
        } else if text::str_eq(code.as_str(), "LN") {
            Self::parse_ln(inv, &rest);
        } else if text::str_eq(code.as_str(), "-1") {
            Self::parse_end(infra, inv, &rest);
        } else if text::str_eq(code.as_str(), "GR") {
            Self::parse_gr(inv, &rest);
        } else if text::str_eq(code.as_str(), "GL") {
            Self::parse_gl(inv, &rest);
        } else if text::str_eq(code.as_str(), "AT") {
            Self::parse_at(inv, &rest);
        } else if text::str_eq(code.as_str(), "AL") {
            Self::parse_al(inv, &rest);
        } else if text::str_eq(code.as_str(), "ZP") {
            Self::parse_zp(inv, &rest);
        } else if text::str_eq(code.as_str(), "TP") {
            Self::parse_tp(inv, &rest);
        } else if text::str_eq(code.as_str(), "LP") {
            Self::parse_lp(inv, &rest);
        } else if text::str_eq(code.as_str(), "HM") {
            Self::parse_hm(inv, &rest);
        } else if text::str_eq(code.as_str(), "TX") {
            Self::parse_tx(inv, &rest);
        } else if text::str_eq(code.as_str(), "HT") {
            Self::parse_ht(inv, &rest);
        } else if text::str_eq(code.as_str(), "EM") {
            Self::parse_em(inv, &rest);
        } else if text::str_eq(code.as_str(), "LB") {
            Self::parse_lb(inv, &rest);
        } else if text::str_eq(code.as_str(), "RK") {
            Self::parse_rk(inv, &rest);
        } else {
            let chars = text::to_chars(code.as_str());
            if num::is_decimal_chars(&chars) {
                let active: Option<MethodToken> = match &inv.method.token {
                    ParseResult::Parsed(m) => Some(*m),
                    _ => None,
                };
                match active {
                    Some(MethodToken::PA) => Self::parse_pa(inv, &tokens),
                    Some(MethodToken::PI) => Self::parse_pi(inv, &tokens),
                    Some(MethodToken::LY) => Self::parse_ly(inv, &tokens),
                    Some(MethodToken::SI) => Self::parse_si(inv, &tokens),
                    Some(MethodToken::HE) => Self::parse_he(inv, &tokens),
                    Some(MethodToken::HK) => Self::parse_hk(inv, &tokens),
                    Some(MethodToken::PT) => Self::parse_pt(inv, &tokens),
                    Some(MethodToken::TR) => Self::parse_tr(inv, &tokens),
                    Some(MethodToken::PR) => Self::parse_pr(inv, &tokens),
                    Some(MethodToken::CP) => Self::parse_cp(inv, &tokens),
                    Some(MethodToken::CU) => Self::parse_cu(inv, &tokens),
                    Some(MethodToken::HP) => Self::parse_hp(inv, &tokens),
                    Some(MethodToken::PO) => Self::parse_po(inv, &tokens),
                    Some(MethodToken::MW) => Self::parse_mw(inv, &tokens),
                    Some(MethodToken::VP) => Self::parse_vp(inv, &tokens),
                    Some(MethodToken::VO) => Self::parse_vo(inv, &tokens),
                    Some(MethodToken::VK) => Self::parse_vk(inv, &tokens),
                    Some(MethodToken::VPK) => Self::parse_vpk(inv, &tokens),
                    Some(MethodToken::HV) => Self::parse_hv(inv, &tokens),
                    Some(MethodToken::HU) => Self::parse_hu(inv, &tokens),
                    Some(MethodToken::PS) => Self::parse_ps(inv, &tokens),
                    Some(MethodToken::PM) => Self::parse_pm(inv, &tokens),
                    Some(MethodToken::KO) => Self::parse_ko(inv, &tokens),
                    Some(MethodToken::KE) => Self::parse_ke(inv, &tokens),
                    Some(MethodToken::KR) => Self::parse_kr(inv, &tokens),
                    Some(MethodToken::NO) => Self::parse_no(inv, &tokens),
                    Some(MethodToken::NE) => Self::parse_ne(inv, &tokens),
                    None => {}
                }
            }
        }
    }

    /// Tags every closed investigation with the file's final provenance and
    /// spatial reference and runs its post-processing.
    fn compute_properties(infra: &mut InfraFile)
        ensures
            final(infra).deep_view() == spec_compute_properties(old(infra).deep_view()),
    {
        let ghost orig = old(infra).deep_view();
        let ghost fin = spec_compute_properties(orig);
        let mut result: Vec<Investigation> = Vec::new();
        proof {
            assert(result.deep_view() =~= fin.investigations.take(0));
            assert(infra.investigations.deep_view() =~= orig.investigations.skip(0));
        }
        while infra.investigations.len() > 0
            invariant
                fin == spec_compute_properties(orig),
                infra.deep_view() == (InfraFileV {
                    investigations: infra.investigations.deep_view(),
                    ..orig
                }),
                result@.len() <= orig.investigations.len(),
                infra.investigations.deep_view() == orig.investigations.skip(result@.len() as int),
                result.deep_view() == fin.investigations.take(result@.len() as int),
            decreases infra.investigations.len(),
        {
            let ghost k = result@.len() as int;
            let ghost pre_vec = infra.investigations@;
            let ghost pre_dv = infra.investigations.deep_view();
            proof {
                assert(pre_dv.len() == pre_vec.len());
                assert(orig.investigations.skip(k).len() == orig.investigations.len() - k);
                assert(0 <= k < orig.investigations.len());
                assert(fin.investigations.len() == orig.investigations.len());
                assert(orig.investigations.skip(k)[0] == orig.investigations[k]);
            }
            let mut investigation = infra.investigations.remove(0);
            proof {
                assert(investigation.deep_view() == pre_dv[0]);
                assert(infra.investigations@ =~= pre_vec.drop_first());
                assert(infra.investigations.deep_view() =~= pre_dv.drop_first());
                assert(pre_dv.drop_first() =~= orig.investigations.skip(k + 1));
            }
            investigation.file_info = infra.file_info.duplicate();
            investigation.spatial = infra.spatial.duplicate();
            proof {
                assert(investigation.deep_view() =~~= (InvestigationV {
                    file_info: orig.file_info,
                    spatial: orig.spatial,
                    ..orig.investigations[k]
                }));
            }
            investigation.compute_properties();
            let ghost pre = result.deep_view();
            result.push(investigation);
            proof {
                assert(fin.investigations[k] == spec_finalize(
                    InvestigationV {
                        file_info: orig.file_info,
                        spatial: orig.spatial,
                        ..orig.investigations[k]
                    },
                ));
                assert(result.deep_view() =~= pre.push(investigation.deep_view()));
                assert(result.deep_view() =~~= fin.investigations.take(k + 1));
            }
        }
        proof {
            assert(result.deep_view() =~= fin.investigations);
        }
        infra.investigations = result;
        proof {
            assert(infra.deep_view() =~~= fin);
        }
    }

    /// Parses a whole file handed over as its decoded lines, in order,
    /// carrying the caller's provenance metadata through unchanged.
    pub fn parse_lines(lines: &Vec<String>, path: Option<String>, encoding: Option<String>) -> (r:
        InfraFile)
        ensures
            r.deep_view() == spec_parse_lines(
                lines.deep_view(),
                path.deep_view(),
                encoding.deep_view(),
            ),
    {
        let ghost init = spec_initial_state(path.deep_view(), encoding.deep_view());
        let mut infra = InfraFile::new();
        infra.file_info = FileInfo { path, encoding, text: None };
        let mut inv = Investigation::new();
        proof {
            assert(infra.deep_view() =~~= init.file);
            assert(lines.deep_view().take(0) =~= Seq::<Seq<char>>::empty());
        }
        let n = lines.len();
        let mut i: usize = 0;
        while i < n
            invariant
                i <= n,
                n == lines@.len(),
                (ParseState { file: infra.deep_view(), inv: inv.deep_view() }) == spec_fold(
                    lines.deep_view().take(i as int),
                    init,
                ),
            decreases n - i,
        {
            proof {
                assert(lines.deep_view().take(i as int + 1).drop_last() =~= lines.deep_view().take(
                    i as int,
                ));
                assert(lines.deep_view().take(i as int + 1).last() == lines@[i as int]@);
            }
            Self::dispatch_line(&mut infra, &mut inv, lines[i].as_str());
            proof {
                assert((ParseState { file: infra.deep_view(), inv: inv.deep_view() }) =~~= spec_fold(
                    lines.deep_view().take(i as int + 1),
                    init,
                ));
            }
            i = i + 1;
        }
        proof {
            assert(lines.deep_view().take(n as int) =~= lines.deep_view());
        }
        Self::compute_properties(&mut infra);
        infra
    }

}

} // verus!
