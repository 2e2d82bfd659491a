//! The measurement data of one observation, tagged by method: one variant
//! per measurement method, each with its own fixed column list.

use vstd::prelude::*;

use crate::date::Date;
use crate::decimal::Decimal;
use crate::observation::lab_results::{LabResult, LabResultV};
use crate::parse_result::{ParseResult, ParseResultV};

verus! {

#[derive(Clone, Debug, PartialEq)]
pub enum ObservationValues {
    Unknown,
    PA {
        depth: ParseResult<Decimal>,
        load: ParseResult<Decimal>,
        hits: ParseResult<i32>,
        half_turns: ParseResult<i32>,
        soil_type: ParseResult<String>,
    },
    PI { depth: ParseResult<Decimal>, soil_type: ParseResult<String> },
    LY {
        depth: ParseResult<Decimal>,
        load: ParseResult<Decimal>,
        hits: ParseResult<i32>,
        soil_type: ParseResult<String>,
    },
    SI {
        depth: ParseResult<Decimal>,
        shear_str: ParseResult<Decimal>,
        disturb_shear_str: ParseResult<Decimal>,
        sensitivity: ParseResult<Decimal>,
        residual_str: ParseResult<Decimal>,
    },
    HE {
        depth: ParseResult<Decimal>,
        hits: ParseResult<i32>,
        soil_type: ParseResult<String>,
    },
    HK {
        depth: ParseResult<Decimal>,
        hits: ParseResult<i32>,
        torque: ParseResult<Decimal>,
        soil_type: ParseResult<String>,
    },
    PT { depth: ParseResult<Decimal>, soil_type: ParseResult<String> },
    TR { depth: ParseResult<Decimal>, soil_type: ParseResult<String> },
    PR {
        depth: ParseResult<Decimal>,
        total_resistance: ParseResult<Decimal>,
        sleeve_friction: ParseResult<Decimal>,
        soil_type: ParseResult<String>,
    },
    CP {
        depth: ParseResult<Decimal>,
        total_resistance: ParseResult<Decimal>,
        sleeve_friction: ParseResult<Decimal>,
        tip_resistance: ParseResult<Decimal>,
        soil_type: ParseResult<String>,
    },
    CU {
        depth: ParseResult<Decimal>,
        total_resistance: ParseResult<Decimal>,
        sleeve_friction: ParseResult<Decimal>,
        tip_resistance: ParseResult<Decimal>,
        pore_water_pressure: ParseResult<Decimal>,
        soil_type: ParseResult<String>,
    },
    HP {
        depth: ParseResult<Decimal>,
        hits: ParseResult<i32>,
        pressure: ParseResult<Decimal>,
        torque: ParseResult<Decimal>,
        mode: ParseResult<String>,
        soil_type: ParseResult<String>,
    },
    PO {
        depth: ParseResult<Decimal>,
        time: ParseResult<i32>,
        soil_type: ParseResult<String>,
    },
    MW {
        depth: ParseResult<Decimal>,
        advance_rate: ParseResult<Decimal>,
        compressive_force: ParseResult<Decimal>,
        flushing_pressure: ParseResult<Decimal>,
        water_consumption: ParseResult<Decimal>,
        torque: ParseResult<Decimal>,
        rotation_speed: ParseResult<Decimal>,
        hits: ParseResult<String>,
        soil_type: ParseResult<String>,
    },
    VP {
        surface_elev: ParseResult<Decimal>,
        date: ParseResult<Date>,
        pipe_top_elev: ParseResult<Decimal>,
        pipe_bot_elev: ParseResult<Decimal>,
        sieve_len: ParseResult<Decimal>,
        measurer: ParseResult<String>,
    },
    VO {
        surface_elev: ParseResult<Decimal>,
        date: ParseResult<Date>,
        pipe_top_elev: ParseResult<Decimal>,
        pipe_bot_elev: ParseResult<Decimal>,
        sieve_len: ParseResult<Decimal>,
        measurer: ParseResult<String>,
    },
    VK {
        surface_elev: ParseResult<Decimal>,
        date: ParseResult<Date>,
        water_type: ParseResult<String>,
    },
    VPK { surface_elev: ParseResult<Decimal>, date: ParseResult<Date> },
    HV {
        depth: ParseResult<Decimal>,
        pressure: ParseResult<Decimal>,
        date: ParseResult<Date>,
        measurer: ParseResult<String>,
    },
    HU {
        surface_elev: ParseResult<Decimal>,
        date: ParseResult<Date>,
        pipe_top_elev: ParseResult<Decimal>,
        pipe_bot_elev: ParseResult<Decimal>,
        sieve_len: ParseResult<Decimal>,
        measurer: ParseResult<String>,
    },
    PS {
        depth: ParseResult<Decimal>,
        modulus: ParseResult<Decimal>,
        fail_pressure: ParseResult<Decimal>,
    },
    PM {
        elev: ParseResult<Decimal>,
        date: ParseResult<Date>,
        measurer: ParseResult<String>,
    },
    KO {
        depth: ParseResult<Decimal>,
        soil_type: ParseResult<String>,
        stones: ParseResult<Decimal>,
        boulders: ParseResult<i32>,
        max_width: ParseResult<Decimal>,
        min_width: ParseResult<Decimal>,
    },
    KE { start_depth: ParseResult<Decimal>, end_depth: ParseResult<Decimal> },
    KR { start_depth: ParseResult<Decimal>, end_depth: ParseResult<Decimal> },
    NO {
        start_depth: ParseResult<Decimal>,
        sample_id: ParseResult<String>,
        end_depth: ParseResult<Decimal>,
        soil_type: ParseResult<String>,
        lab_values: Vec<ParseResult<LabResult>>,
    },
    NE {
        start_depth: ParseResult<Decimal>,
        sample_id: ParseResult<String>,
        end_depth: ParseResult<Decimal>,
        soil_type: ParseResult<String>,
        lab_values: Vec<ParseResult<LabResult>>,
    },
}

#[verifier::ext_equal]
pub enum ObservationValuesV {
    Unknown,
    PA {
        depth: ParseResultV<int>,
        load: ParseResultV<int>,
        hits: ParseResultV<i32>,
        half_turns: ParseResultV<i32>,
        soil_type: ParseResultV<Seq<char>>,
    },
    PI { depth: ParseResultV<int>, soil_type: ParseResultV<Seq<char>> },
    LY {
        depth: ParseResultV<int>,
        load: ParseResultV<int>,
        hits: ParseResultV<i32>,
        soil_type: ParseResultV<Seq<char>>,
    },
    SI {
        depth: ParseResultV<int>,
        shear_str: ParseResultV<int>,
        disturb_shear_str: ParseResultV<int>,
        sensitivity: ParseResultV<int>,
        residual_str: ParseResultV<int>,
    },
    HE {
        depth: ParseResultV<int>,
        hits: ParseResultV<i32>,
        soil_type: ParseResultV<Seq<char>>,
    },
    HK {
        depth: ParseResultV<int>,
        hits: ParseResultV<i32>,
        torque: ParseResultV<int>,
        soil_type: ParseResultV<Seq<char>>,
    },
    PT { depth: ParseResultV<int>, soil_type: ParseResultV<Seq<char>> },
    TR { depth: ParseResultV<int>, soil_type: ParseResultV<Seq<char>> },
    PR {
        depth: ParseResultV<int>,
        total_resistance: ParseResultV<int>,
        sleeve_friction: ParseResultV<int>,
        soil_type: ParseResultV<Seq<char>>,
    },
    CP {
        depth: ParseResultV<int>,
        total_resistance: ParseResultV<int>,
        sleeve_friction: ParseResultV<int>,
        tip_resistance: ParseResultV<int>,
        soil_type: ParseResultV<Seq<char>>,
    },
    CU {
        depth: ParseResultV<int>,
        total_resistance: ParseResultV<int>,
        sleeve_friction: ParseResultV<int>,
        tip_resistance: ParseResultV<int>,
        pore_water_pressure: ParseResultV<int>,
        soil_type: ParseResultV<Seq<char>>,
    },
    HP {
        depth: ParseResultV<int>,
        hits: ParseResultV<i32>,
        pressure: ParseResultV<int>,
        torque: ParseResultV<int>,
        mode: ParseResultV<Seq<char>>,
        soil_type: ParseResultV<Seq<char>>,
    },
    PO {
        depth: ParseResultV<int>,
        time: ParseResultV<i32>,
        soil_type: ParseResultV<Seq<char>>,
    },
    MW {
        depth: ParseResultV<int>,
        advance_rate: ParseResultV<int>,
        compressive_force: ParseResultV<int>,
        flushing_pressure: ParseResultV<int>,
        water_consumption: ParseResultV<int>,
        torque: ParseResultV<int>,
        rotation_speed: ParseResultV<int>,
        hits: ParseResultV<Seq<char>>,
        soil_type: ParseResultV<Seq<char>>,
    },
    VP {
        surface_elev: ParseResultV<int>,
        date: ParseResultV<Date>,
        pipe_top_elev: ParseResultV<int>,
        pipe_bot_elev: ParseResultV<int>,
        sieve_len: ParseResultV<int>,
        measurer: ParseResultV<Seq<char>>,
    },
    VO {
        surface_elev: ParseResultV<int>,
        date: ParseResultV<Date>,
        pipe_top_elev: ParseResultV<int>,
        pipe_bot_elev: ParseResultV<int>,
        sieve_len: ParseResultV<int>,
        measurer: ParseResultV<Seq<char>>,
    },
    VK {
        surface_elev: ParseResultV<int>,
        date: ParseResultV<Date>,
        water_type: ParseResultV<Seq<char>>,
    },
    VPK { surface_elev: ParseResultV<int>, date: ParseResultV<Date> },
    HV {
        depth: ParseResultV<int>,
        pressure: ParseResultV<int>,
        date: ParseResultV<Date>,
        measurer: ParseResultV<Seq<char>>,
    },
    HU {
        surface_elev: ParseResultV<int>,
        date: ParseResultV<Date>,
        pipe_top_elev: ParseResultV<int>,
        pipe_bot_elev: ParseResultV<int>,
        sieve_len: ParseResultV<int>,
        measurer: ParseResultV<Seq<char>>,
    },
    PS {
        depth: ParseResultV<int>,
        modulus: ParseResultV<int>,
        fail_pressure: ParseResultV<int>,
    },
    PM {
        elev: ParseResultV<int>,
        date: ParseResultV<Date>,
        measurer: ParseResultV<Seq<char>>,
    },
    KO {
        depth: ParseResultV<int>,
        soil_type: ParseResultV<Seq<char>>,
        stones: ParseResultV<int>,
        boulders: ParseResultV<i32>,
        max_width: ParseResultV<int>,
        min_width: ParseResultV<int>,
    },
    KE { start_depth: ParseResultV<int>, end_depth: ParseResultV<int> },
    KR { start_depth: ParseResultV<int>, end_depth: ParseResultV<int> },
    NO {
        start_depth: ParseResultV<int>,
        sample_id: ParseResultV<Seq<char>>,
        end_depth: ParseResultV<int>,
        soil_type: ParseResultV<Seq<char>>,
        lab_values: Seq<ParseResultV<LabResultV>>,
    },
    NE {
        start_depth: ParseResultV<int>,
        sample_id: ParseResultV<Seq<char>>,
        end_depth: ParseResultV<int>,
        soil_type: ParseResultV<Seq<char>>,
        lab_values: Seq<ParseResultV<LabResultV>>,
    },
}

impl DeepView for ObservationValues {
    type V = ObservationValuesV;

    open spec fn deep_view(&self) -> ObservationValuesV {
        match self {
            ObservationValues::Unknown => ObservationValuesV::Unknown,
            ObservationValues::PA { depth, load, hits, half_turns, soil_type } =>
                ObservationValuesV::PA {
                depth: depth.deep_view(),
                load: load.deep_view(),
                hits: hits.deep_view(),
                half_turns: half_turns.deep_view(),
                soil_type: soil_type.deep_view(),
            },
            ObservationValues::PI { depth, soil_type } => ObservationValuesV::PI {
                depth: depth.deep_view(),
                soil_type: soil_type.deep_view(),
            },
            ObservationValues::LY { depth, load, hits, soil_type } => ObservationValuesV::LY {
                depth: depth.deep_view(),
                load: load.deep_view(),
                hits: hits.deep_view(),
                soil_type: soil_type.deep_view(),
            },
            ObservationValues::SI {
                depth,
                shear_str,
                disturb_shear_str,
                sensitivity,
                residual_str,
            } => ObservationValuesV::SI {
                depth: depth.deep_view(),
                shear_str: shear_str.deep_view(),
                disturb_shear_str: disturb_shear_str.deep_view(),
                sensitivity: sensitivity.deep_view(),
                residual_str: residual_str.deep_view(),
            },
            ObservationValues::HE { depth, hits, soil_type } => ObservationValuesV::HE {
                depth: depth.deep_view(),
                hits: hits.deep_view(),
                soil_type: soil_type.deep_view(),
            },
            ObservationValues::HK { depth, hits, torque, soil_type } => ObservationValuesV::HK {
                depth: depth.deep_view(),
                hits: hits.deep_view(),
                torque: torque.deep_view(),
                soil_type: soil_type.deep_view(),
            },
            ObservationValues::PT { depth, soil_type } => ObservationValuesV::PT {
                depth: depth.deep_view(),
                soil_type: soil_type.deep_view(),
            },
            ObservationValues::TR { depth, soil_type } => ObservationValuesV::TR {
                depth: depth.deep_view(),
                soil_type: soil_type.deep_view(),
            },
            ObservationValues::PR { depth, total_resistance, sleeve_friction, soil_type } =>
                ObservationValuesV::PR {
                depth: depth.deep_view(),
                total_resistance: total_resistance.deep_view(),
                sleeve_friction: sleeve_friction.deep_view(),
                soil_type: soil_type.deep_view(),
            },
            ObservationValues::CP {
                depth,
                total_resistance,
                sleeve_friction,
                tip_resistance,
                soil_type,
            } => ObservationValuesV::CP {
                depth: depth.deep_view(),
                total_resistance: total_resistance.deep_view(),
                sleeve_friction: sleeve_friction.deep_view(),
                tip_resistance: tip_resistance.deep_view(),
                soil_type: soil_type.deep_view(),
            },
            ObservationValues::CU {
                depth,
                total_resistance,
                sleeve_friction,
                tip_resistance,
                pore_water_pressure,
                soil_type,
            } => ObservationValuesV::CU {
                depth: depth.deep_view(),
                total_resistance: total_resistance.deep_view(),
                sleeve_friction: sleeve_friction.deep_view(),
                tip_resistance: tip_resistance.deep_view(),
                pore_water_pressure: pore_water_pressure.deep_view(),
                soil_type: soil_type.deep_view(),
            },
            ObservationValues::HP { depth, hits, pressure, torque, mode, soil_type } =>
                ObservationValuesV::HP {
                depth: depth.deep_view(),
                hits: hits.deep_view(),
                pressure: pressure.deep_view(),
                torque: torque.deep_view(),
                mode: mode.deep_view(),
                soil_type: soil_type.deep_view(),
            },
            ObservationValues::PO { depth, time, soil_type } => ObservationValuesV::PO {
                depth: depth.deep_view(),
                time: time.deep_view(),
                soil_type: soil_type.deep_view(),
            },
            ObservationValues::MW {
                depth,
                advance_rate,
                compressive_force,
                flushing_pressure,
                water_consumption,
                torque,
                rotation_speed,
                hits,
                soil_type,
            } => ObservationValuesV::MW {
                depth: depth.deep_view(),
                advance_rate: advance_rate.deep_view(),
                compressive_force: compressive_force.deep_view(),
                flushing_pressure: flushing_pressure.deep_view(),
                water_consumption: water_consumption.deep_view(),
                torque: torque.deep_view(),
                rotation_speed: rotation_speed.deep_view(),
                hits: hits.deep_view(),
                soil_type: soil_type.deep_view(),
            },
            ObservationValues::VP {
                surface_elev,
                date,
                pipe_top_elev,
                pipe_bot_elev,
                sieve_len,
                measurer,
            } => ObservationValuesV::VP {
                surface_elev: surface_elev.deep_view(),
                date: date.deep_view(),
                pipe_top_elev: pipe_top_elev.deep_view(),
                pipe_bot_elev: pipe_bot_elev.deep_view(),
                sieve_len: sieve_len.deep_view(),
                measurer: measurer.deep_view(),
            },
            ObservationValues::VO {
                surface_elev,
                date,
                pipe_top_elev,
                pipe_bot_elev,
                sieve_len,
                measurer,
            } => ObservationValuesV::VO {
                surface_elev: surface_elev.deep_view(),
                date: date.deep_view(),
                pipe_top_elev: pipe_top_elev.deep_view(),
                pipe_bot_elev: pipe_bot_elev.deep_view(),
                sieve_len: sieve_len.deep_view(),
                measurer: measurer.deep_view(),
            },
            ObservationValues::VK { surface_elev, date, water_type } => ObservationValuesV::VK {
                surface_elev: surface_elev.deep_view(),
                date: date.deep_view(),
                water_type: water_type.deep_view(),
            },
            ObservationValues::VPK { surface_elev, date } => ObservationValuesV::VPK {
                surface_elev: surface_elev.deep_view(),
                date: date.deep_view(),
            },
            ObservationValues::HV { depth, pressure, date, measurer } => ObservationValuesV::HV {
                depth: depth.deep_view(),
                pressure: pressure.deep_view(),
                date: date.deep_view(),
                measurer: measurer.deep_view(),
            },
            ObservationValues::HU {
                surface_elev,
                date,
                pipe_top_elev,
                pipe_bot_elev,
                sieve_len,
                measurer,
            } => ObservationValuesV::HU {
                surface_elev: surface_elev.deep_view(),
                date: date.deep_view(),
                pipe_top_elev: pipe_top_elev.deep_view(),
                pipe_bot_elev: pipe_bot_elev.deep_view(),
                sieve_len: sieve_len.deep_view(),
                measurer: measurer.deep_view(),
            },
            ObservationValues::PS { depth, modulus, fail_pressure } => ObservationValuesV::PS {
                depth: depth.deep_view(),
                modulus: modulus.deep_view(),
                fail_pressure: fail_pressure.deep_view(),
            },
            ObservationValues::PM { elev, date, measurer } => ObservationValuesV::PM {
                elev: elev.deep_view(),
                date: date.deep_view(),
                measurer: measurer.deep_view(),
            },
            ObservationValues::KO { depth, soil_type, stones, boulders, max_width, min_width } =>
                ObservationValuesV::KO {
                depth: depth.deep_view(),
                soil_type: soil_type.deep_view(),
                stones: stones.deep_view(),
                boulders: boulders.deep_view(),
                max_width: max_width.deep_view(),
                min_width: min_width.deep_view(),
            },
            ObservationValues::KE { start_depth, end_depth } => ObservationValuesV::KE {
                start_depth: start_depth.deep_view(),
                end_depth: end_depth.deep_view(),
            },
            ObservationValues::KR { start_depth, end_depth } => ObservationValuesV::KR {
                start_depth: start_depth.deep_view(),
                end_depth: end_depth.deep_view(),
            },
            ObservationValues::NO { start_depth, sample_id, end_depth, soil_type, lab_values } =>
                ObservationValuesV::NO {
                start_depth: start_depth.deep_view(),
                sample_id: sample_id.deep_view(),
                end_depth: end_depth.deep_view(),
                soil_type: soil_type.deep_view(),
                lab_values: lab_values.deep_view(),
            },
            ObservationValues::NE { start_depth, sample_id, end_depth, soil_type, lab_values } =>
                ObservationValuesV::NE {
                start_depth: start_depth.deep_view(),
                sample_id: sample_id.deep_view(),
                end_depth: end_depth.deep_view(),
                soil_type: soil_type.deep_view(),
                lab_values: lab_values.deep_view(),
            },
        }
    }
}

/// The soil-type column of a variant that has one.
pub open spec fn spec_soil_of(v: ObservationValuesV) -> Option<ParseResultV<Seq<char>>> {
    match v {
        ObservationValuesV::PA { soil_type, .. } => Some(soil_type),
        ObservationValuesV::PI { soil_type, .. } => Some(soil_type),
        ObservationValuesV::LY { soil_type, .. } => Some(soil_type),
        ObservationValuesV::HE { soil_type, .. } => Some(soil_type),
        ObservationValuesV::HK { soil_type, .. } => Some(soil_type),
        ObservationValuesV::PT { soil_type, .. } => Some(soil_type),
        ObservationValuesV::TR { soil_type, .. } => Some(soil_type),
        ObservationValuesV::PR { soil_type, .. } => Some(soil_type),
        ObservationValuesV::CP { soil_type, .. } => Some(soil_type),
        ObservationValuesV::CU { soil_type, .. } => Some(soil_type),
        ObservationValuesV::HP { soil_type, .. } => Some(soil_type),
        ObservationValuesV::PO { soil_type, .. } => Some(soil_type),
        ObservationValuesV::MW { soil_type, .. } => Some(soil_type),
        ObservationValuesV::KO { soil_type, .. } => Some(soil_type),
        _ => None,
    }
}

/// The same variant with its soil-type column replaced; a variant without a
/// soil-type column is unchanged.
pub open spec fn spec_with_soil(
    v: ObservationValuesV,
    st: ParseResultV<Seq<char>>,
) -> ObservationValuesV {
    match v {
        ObservationValuesV::PA { depth, load, hits, half_turns, .. } => ObservationValuesV::PA {
            depth,
            load,
            hits,
            half_turns,
            soil_type: st,
        },
        ObservationValuesV::PI { depth, .. } => ObservationValuesV::PI { depth, soil_type: st },
        ObservationValuesV::LY { depth, load, hits, .. } => ObservationValuesV::LY {
            depth,
            load,
            hits,
            soil_type: st,
        },
        ObservationValuesV::HE { depth, hits, .. } => ObservationValuesV::HE {
            depth,
            hits,
            soil_type: st,
        },
        ObservationValuesV::HK { depth, hits, torque, .. } => ObservationValuesV::HK {
            depth,
            hits,
            torque,
            soil_type: st,
        },
        ObservationValuesV::PT { depth, .. } => ObservationValuesV::PT { depth, soil_type: st },
        ObservationValuesV::TR { depth, .. } => ObservationValuesV::TR { depth, soil_type: st },
        ObservationValuesV::PR { depth, total_resistance, sleeve_friction, .. } =>
            ObservationValuesV::PR {
            depth,
            total_resistance,
            sleeve_friction,
            soil_type: st,
        },
        ObservationValuesV::CP { depth, total_resistance, sleeve_friction, tip_resistance, .. } =>
            ObservationValuesV::CP {
            depth,
            total_resistance,
            sleeve_friction,
            tip_resistance,
            soil_type: st,
        },
        ObservationValuesV::CU {
            depth,
            total_resistance,
            sleeve_friction,
            tip_resistance,
            pore_water_pressure,
            ..
        } => ObservationValuesV::CU {
            depth,
            total_resistance,
            sleeve_friction,
            tip_resistance,
            pore_water_pressure,
            soil_type: st,
        },
        ObservationValuesV::HP { depth, hits, pressure, torque, mode, .. } =>
            ObservationValuesV::HP {
            depth,
            hits,
            pressure,
            torque,
            mode,
            soil_type: st,
        },
        ObservationValuesV::PO { depth, time, .. } => ObservationValuesV::PO {
            depth,
            time,
            soil_type: st,
        },
        ObservationValuesV::MW {
            depth,
            advance_rate,
            compressive_force,
            flushing_pressure,
            water_consumption,
            torque,
            rotation_speed,
            hits,
            ..
        } => ObservationValuesV::MW {
            depth,
            advance_rate,
            compressive_force,
            flushing_pressure,
            water_consumption,
            torque,
            rotation_speed,
            hits,
            soil_type: st,
        },
        ObservationValuesV::KO { depth, stones, boulders, max_width, min_width, .. } =>
            ObservationValuesV::KO {
            depth,
            soil_type: st,
            stones,
            boulders,
            max_width,
            min_width,
        },
        _ => v,
    }
}

/// The depth column used for soil-layer derivation, where the variant has
/// one.
pub open spec fn spec_depth_of(v: ObservationValuesV) -> Option<ParseResultV<int>> {
    match v {
        ObservationValuesV::PA { depth, .. } => Some(depth),
        ObservationValuesV::PI { depth, .. } => Some(depth),
        ObservationValuesV::LY { depth, .. } => Some(depth),
        ObservationValuesV::HE { depth, .. } => Some(depth),
        ObservationValuesV::HK { depth, .. } => Some(depth),
        ObservationValuesV::PT { depth, .. } => Some(depth),
        ObservationValuesV::TR { depth, .. } => Some(depth),
        ObservationValuesV::PR { depth, .. } => Some(depth),
        ObservationValuesV::CP { depth, .. } => Some(depth),
        ObservationValuesV::CU { depth, .. } => Some(depth),
        ObservationValuesV::HP { depth, .. } => Some(depth),
        ObservationValuesV::PO { depth, .. } => Some(depth),
        ObservationValuesV::MW { depth, .. } => Some(depth),
        ObservationValuesV::KO { depth, .. } => Some(depth),
        ObservationValuesV::PS { depth, .. } => Some(depth),
        _ => None,
    }
}

/// The depth column used for the total-depth derivation: the field-vane
/// (`SI`) and piezometer (`HV`) variants count here although they carry no
/// soil type.
pub open spec fn spec_final_depth_of(v: ObservationValuesV) -> Option<ParseResultV<int>> {
    match v {
        ObservationValuesV::SI { depth, .. } => Some(depth),
        ObservationValuesV::HV { depth, .. } => Some(depth),
        _ => spec_depth_of(v),
    }
}

impl ObservationValues {
    /// Whether this variant carries a soil-type column at all.
    pub fn has_soil_type(&self) -> (r: bool)
        ensures
            r == (spec_soil_of(self.deep_view()) is Some),
    {
        match self {
            ObservationValues::PA { .. } => true,
            ObservationValues::PI { .. } => true,
            ObservationValues::LY { .. } => true,
            ObservationValues::HE { .. } => true,
            ObservationValues::HK { .. } => true,
            ObservationValues::PT { .. } => true,
            ObservationValues::TR { .. } => true,
            ObservationValues::PR { .. } => true,
            ObservationValues::CP { .. } => true,
            ObservationValues::CU { .. } => true,
            ObservationValues::HP { .. } => true,
            ObservationValues::PO { .. } => true,
            ObservationValues::MW { .. } => true,
            ObservationValues::KO { .. } => true,
            _ => false,
        }
    }

    /// The successfully decoded soil type, where the variant has the column
    /// and the column was decoded.
    pub(crate) fn get_parsed_soil_type(&self) -> (r: Option<&String>)
        ensures
            match spec_soil_of(self.deep_view()) {
                Some(ParseResultV::Parsed(s)) => r is Some && r->Some_0@ == s,
                _ => r is None,
            },
    {
        match self {
            ObservationValues::PA { soil_type, .. }
            | ObservationValues::PI { soil_type, .. }
            | ObservationValues::LY { soil_type, .. }
            | ObservationValues::HE { soil_type, .. }
            | ObservationValues::HK { soil_type, .. }
            | ObservationValues::PT { soil_type, .. }
            | ObservationValues::TR { soil_type, .. }
            | ObservationValues::PR { soil_type, .. }
            | ObservationValues::CP { soil_type, .. }
            | ObservationValues::CU { soil_type, .. }
            | ObservationValues::HP { soil_type, .. }
            | ObservationValues::PO { soil_type, .. }
            | ObservationValues::MW { soil_type, .. }
            | ObservationValues::KO { soil_type, .. } => {
                if let ParseResult::Parsed(soil) = soil_type {
                    Some(soil)
                } else {
                    None
                }
            }
            _ => None,
        }
    }

    /// The successfully decoded depth used for soil-layer derivation.
    pub(crate) fn get_parsed_depth(&self) -> (r: Option<Decimal>)
        ensures
            match spec_depth_of(self.deep_view()) {
                Some(ParseResultV::Parsed(d)) => r is Some && r->Some_0.micro as int == d,
                _ => r is None,
            },
    {
        match self {
            ObservationValues::PA { depth, .. }
            | ObservationValues::PI { depth, .. }
            | ObservationValues::LY { depth, .. }
            | ObservationValues::HE { depth, .. }
            | ObservationValues::HK { depth, .. }
            | ObservationValues::PT { depth, .. }
            | ObservationValues::TR { depth, .. }
            | ObservationValues::PR { depth, .. }
            | ObservationValues::CP { depth, .. }
            | ObservationValues::CU { depth, .. }
            | ObservationValues::HP { depth, .. }
            | ObservationValues::PO { depth, .. }
            | ObservationValues::MW { depth, .. }
            | ObservationValues::KO { depth, .. }
            | ObservationValues::PS { depth, .. } => {
                if let ParseResult::Parsed(value) = depth {
                    Some(*value)
                } else {
                    None
                }
            }
            _ => None,
        }
    }

    /// Whether this variant carries a depth column that counts for the
    /// total-depth derivation.
    pub(crate) fn has_final_depth(&self) -> (r: bool)
        ensures
            r == (spec_final_depth_of(self.deep_view()) is Some),
    {
        match self {
            ObservationValues::PA { .. } => true,
            ObservationValues::PI { .. } => true,
            ObservationValues::LY { .. } => true,
            ObservationValues::SI { .. } => true,
            ObservationValues::HE { .. } => true,
            ObservationValues::HK { .. } => true,
            ObservationValues::PT { .. } => true,
            ObservationValues::TR { .. } => true,
            ObservationValues::PR { .. } => true,
            ObservationValues::CP { .. } => true,
            ObservationValues::CU { .. } => true,
            ObservationValues::HP { .. } => true,
            ObservationValues::PO { .. } => true,
            ObservationValues::MW { .. } => true,
            ObservationValues::HV { .. } => true,
            ObservationValues::KO { .. } => true,
            ObservationValues::PS { .. } => true,
            _ => false,
        }
    }

    /// The successfully decoded depth used for the total-depth derivation.
    pub(crate) fn get_final_depth(&self) -> (r: Option<Decimal>)
        ensures
            match spec_final_depth_of(self.deep_view()) {
                Some(ParseResultV::Parsed(d)) => r is Some && r->Some_0.micro as int == d,
                _ => r is None,
            },
    {
        match self {
            ObservationValues::SI { depth, .. } | ObservationValues::HV { depth, .. } => {
                if let ParseResult::Parsed(value) = depth {
                    Some(*value)
                } else {
                    None
                }
            }
            _ => self.get_parsed_depth(),
        }
    }

    /// This variant with its soil-type column replaced; a variant without
    /// the column is returned unchanged.
    pub(crate) fn with_soil_type(self, st: ParseResult<String>) -> (r: Self)
        ensures
            r.deep_view() == spec_with_soil(self.deep_view(), st.deep_view()),
    {
        match self {
            ObservationValues::PA { depth, load, hits, half_turns, .. } => ObservationValues::PA {
                depth,
                load,
                hits,
                half_turns,
                soil_type: st,
            },
            ObservationValues::PI { depth, .. } => ObservationValues::PI { depth, soil_type: st },
            ObservationValues::LY { depth, load, hits, .. } => ObservationValues::LY {
                depth,
                load,
                hits,
                soil_type: st,
            },
            ObservationValues::HE { depth, hits, .. } => ObservationValues::HE {
                depth,
                hits,
                soil_type: st,
            },
            ObservationValues::HK { depth, hits, torque, .. } => ObservationValues::HK {
                depth,
                hits,
                torque,
                soil_type: st,
            },
            ObservationValues::PT { depth, .. } => ObservationValues::PT { depth, soil_type: st },
            ObservationValues::TR { depth, .. } => ObservationValues::TR { depth, soil_type: st },
            ObservationValues::PR { depth, total_resistance, sleeve_friction, .. } =>
                ObservationValues::PR {
                depth,
                total_resistance,
                sleeve_friction,
                soil_type: st,
            },
            ObservationValues::CP {
                depth,
                total_resistance,
                sleeve_friction,
                tip_resistance,
                ..
            } => ObservationValues::CP {
                depth,
                total_resistance,
                sleeve_friction,
                tip_resistance,
                soil_type: st,
            },
            ObservationValues::CU {
                depth,
                total_resistance,
                sleeve_friction,
                tip_resistance,
                pore_water_pressure,
                ..
            } => ObservationValues::CU {
                depth,
                total_resistance,
                sleeve_friction,
                tip_resistance,
                pore_water_pressure,
                soil_type: st,
            },
            ObservationValues::HP { depth, hits, pressure, torque, mode, .. } =>
                ObservationValues::HP {
                depth,
                hits,
                pressure,
                torque,
                mode,
                soil_type: st,
            },
            ObservationValues::PO { depth, time, .. } => ObservationValues::PO {
                depth,
                time,
                soil_type: st,
            },
            ObservationValues::MW {
                depth,
                advance_rate,
                compressive_force,
                flushing_pressure,
                water_consumption,
                torque,
                rotation_speed,
                hits,
                ..
            } => ObservationValues::MW {
                depth,
                advance_rate,
                compressive_force,
                flushing_pressure,
                water_consumption,
                torque,
                rotation_speed,
                hits,
                soil_type: st,
            },
            ObservationValues::KO { depth, stones, boulders, max_width, min_width, .. } =>
                ObservationValues::KO {
                depth,
                soil_type: st,
                stones,
                boulders,
                max_width,
                min_width,
            },
            other => other,
        }
    }
}

} // verus!
