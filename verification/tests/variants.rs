//! Data rows of the remaining measurement methods, each through the full
//! line dispatcher.

use infra_format::{Date, Decimal, InfraFile, ObservationValues, ParseResult};

fn parse_one(method: &str, row: &str) -> ObservationValues {
    let input: Vec<String> = [format!("TT {}", method), row.to_string(), "-1 TM".to_string()]
        .to_vec();
    let file = InfraFile::parse_lines(&input, None, None);
    assert_eq!(file.investigations.len(), 1, "for method {}", method);
    assert_eq!(file.investigations[0].observations.len(), 1, "for method {}", method);
    file.investigations[0].observations[0].values.clone()
}

fn dec(micro: i64) -> ParseResult<Decimal> {
    ParseResult::Parsed(Decimal::from_micro(micro))
}

fn text(s: &str) -> ParseResult<String> {
    ParseResult::Parsed(s.to_string())
}

#[test]
fn stick_and_pipe_and_pin_rows() {
    assert_eq!(
        parse_one("PI", "1.5 clay"),
        ObservationValues::PI { depth: dec(1_500_000), soil_type: text("clay") }
    );
    assert_eq!(
        parse_one("PT", "2.5 silt"),
        ObservationValues::PT { depth: dec(2_500_000), soil_type: text("silt") }
    );
    assert_eq!(
        parse_one("TR", "3.5 sand"),
        ObservationValues::TR { depth: dec(3_500_000), soil_type: text("sand") }
    );
}

#[test]
fn hammer_and_probing_rows() {
    assert_eq!(
        parse_one("LY", "1.0 2.5 7 clay"),
        ObservationValues::LY {
            depth: dec(1_000_000),
            load: dec(2_500_000),
            hits: ParseResult::Parsed(7),
            soil_type: text("clay"),
        }
    );
    assert_eq!(
        parse_one("HE", "1.2 12 till"),
        ObservationValues::HE {
            depth: dec(1_200_000),
            hits: ParseResult::Parsed(12),
            soil_type: text("till"),
        }
    );
    assert_eq!(
        parse_one("HK", "1.4 9 55.5 till"),
        ObservationValues::HK {
            depth: dec(1_400_000),
            hits: ParseResult::Parsed(9),
            torque: dec(55_500_000),
            soil_type: text("till"),
        }
    );
    assert_eq!(
        parse_one("PO", "4.0 90 rock"),
        ObservationValues::PO {
            depth: dec(4_000_000),
            time: ParseResult::Parsed(90),
            soil_type: text("rock"),
        }
    );
}

#[test]
fn vane_and_penetration_rows() {
    assert_eq!(
        parse_one("SI", "2.0 15.5 4.2 3.7 1.1"),
        ObservationValues::SI {
            depth: dec(2_000_000),
            shear_str: dec(15_500_000),
            disturb_shear_str: dec(4_200_000),
            sensitivity: dec(3_700_000),
            residual_str: dec(1_100_000),
        }
    );
    assert_eq!(
        parse_one("PR", "1.0 10.5 0.2 clay"),
        ObservationValues::PR {
            depth: dec(1_000_000),
            total_resistance: dec(10_500_000),
            sleeve_friction: dec(200_000),
            soil_type: text("clay"),
        }
    );
    assert_eq!(
        parse_one("CP", "1.0 10.5 0.2 8.1 clay"),
        ObservationValues::CP {
            depth: dec(1_000_000),
            total_resistance: dec(10_500_000),
            sleeve_friction: dec(200_000),
            tip_resistance: dec(8_100_000),
            soil_type: text("clay"),
        }
    );
    assert_eq!(
        parse_one("CU", "1.0 10.5 0.2 8.1 0.4 clay"),
        ObservationValues::CU {
            depth: dec(1_000_000),
            total_resistance: dec(10_500_000),
            sleeve_friction: dec(200_000),
            tip_resistance: dec(8_100_000),
            pore_water_pressure: dec(400_000),
            soil_type: text("clay"),
        }
    );
}

#[test]
fn drilling_rows() {
    assert_eq!(
        parse_one("MW", "5.0 1.1 2.2 3.3 4.4 5.5 6.6 y moraine"),
        ObservationValues::MW {
            depth: dec(5_000_000),
            advance_rate: dec(1_100_000),
            compressive_force: dec(2_200_000),
            flushing_pressure: dec(3_300_000),
            water_consumption: dec(4_400_000),
            torque: dec(5_500_000),
            rotation_speed: dec(6_600_000),
            hits: text("y"),
            soil_type: text("moraine"),
        }
    );
    assert_eq!(
        parse_one("KE", "1.0 2.0"),
        ObservationValues::KE { start_depth: dec(1_000_000), end_depth: dec(2_000_000) }
    );
    assert_eq!(
        parse_one("KR", "2.0 3.0"),
        ObservationValues::KR { start_depth: dec(2_000_000), end_depth: dec(3_000_000) }
    );
}

#[test]
fn standpipe_and_water_rows() {
    let date = ParseResult::Parsed(Date { year: 2021, month: 6, day: 1 });
    assert_eq!(
        parse_one("VP", "12.5 01062021 13.0 9.0 0.5 mtr"),
        ObservationValues::VP {
            surface_elev: dec(12_500_000),
            date: date.clone(),
            pipe_top_elev: dec(13_000_000),
            pipe_bot_elev: dec(9_000_000),
            sieve_len: dec(500_000),
            measurer: text("mtr"),
        }
    );
    assert_eq!(
        parse_one("VO", "12.5 01062021 13.0 9.0 0.5 mtr"),
        ObservationValues::VO {
            surface_elev: dec(12_500_000),
            date: date.clone(),
            pipe_top_elev: dec(13_000_000),
            pipe_bot_elev: dec(9_000_000),
            sieve_len: dec(500_000),
            measurer: text("mtr"),
        }
    );
    assert_eq!(
        parse_one("HU", "12.5 01062021 13.0 9.0 0.5 mtr"),
        ObservationValues::HU {
            surface_elev: dec(12_500_000),
            date: date.clone(),
            pipe_top_elev: dec(13_000_000),
            pipe_bot_elev: dec(9_000_000),
            sieve_len: dec(500_000),
            measurer: text("mtr"),
        }
    );
    assert_eq!(
        parse_one("VK", "10.0 01062021 fresh"),
        ObservationValues::VK {
            surface_elev: dec(10_000_000),
            date: date.clone(),
            water_type: text("fresh"),
        }
    );
    assert_eq!(
        parse_one("VPK", "10.0 01062021"),
        ObservationValues::VPK { surface_elev: dec(10_000_000), date: date.clone() }
    );
    assert_eq!(
        parse_one("HV", "3.0 45.5 01062021 mtr"),
        ObservationValues::HV {
            depth: dec(3_000_000),
            pressure: dec(45_500_000),
            date: date.clone(),
            measurer: text("mtr"),
        }
    );
    assert_eq!(
        parse_one("PM", "10.0 01062021 mtr"),
        ObservationValues::PM { elev: dec(10_000_000), date, measurer: text("mtr") }
    );
}

#[test]
fn pressuremeter_and_sample_rows() {
    assert_eq!(
        parse_one("PS", "4.0 120.5 80.25"),
        ObservationValues::PS {
            depth: dec(4_000_000),
            modulus: dec(120_500_000),
            fail_pressure: dec(80_250_000),
        }
    );
    assert_eq!(
        parse_one("NE", "1.0 s2 1.4 clay"),
        ObservationValues::NE {
            start_depth: dec(1_000_000),
            sample_id: text("s2"),
            end_depth: dec(1_400_000),
            soil_type: text("clay"),
            lab_values: Vec::new(),
        }
    );
}

#[test]
fn missing_columns_in_rows() {
    assert_eq!(
        parse_one("PI", "1.5"),
        ObservationValues::PI { depth: dec(1_500_000), soil_type: ParseResult::Missing }
    );
    assert_eq!(
        parse_one("KO", "1.0 till"),
        ObservationValues::KO {
            depth: dec(1_000_000),
            soil_type: text("till"),
            stones: ParseResult::Missing,
            boulders: ParseResult::Missing,
            max_width: ParseResult::Missing,
            min_width: ParseResult::Missing,
        }
    );
}
