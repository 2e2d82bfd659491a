//! The line dispatcher: record codes, the terminator, annotation and lab
//! attachment, and the observation-row rules.

use infra_format::{
    CoordinateSystem, Decimal, ElevationSystem, InfraFile, Investigation, LabResult, MethodToken,
    ObservationValues, ParseResult, Sampler, TerminationToken,
};

fn lines(v: &[&str]) -> Vec<String> {
    v.iter().map(|s| s.to_string()).collect()
}

#[test]
fn end_to_end_scenario() {
    let input = lines(&[
        "FO 1 GEOCALC 5",
        "KJ WGS84 N2000",
        "TT PA 1 m1 std k 0",
        "5.0 1.2 3 clay",
        "-1 TM",
    ]);
    let file = InfraFile::parse_lines(&input, None, None);

    assert_eq!(file.format.version, ParseResult::Parsed("1".to_string()));
    assert_eq!(file.format.used_software, ParseResult::Parsed("GEOCALC".to_string()));
    assert_eq!(file.format.software_version, ParseResult::Parsed("5".to_string()));
    assert_eq!(
        file.spatial.coordinate_system,
        ParseResult::Parsed(CoordinateSystem::WGS84)
    );
    assert_eq!(
        file.spatial.elevation_system,
        ParseResult::Parsed(ElevationSystem::N2000)
    );

    assert_eq!(file.investigations.len(), 1);
    let inv = &file.investigations[0];
    assert_eq!(inv.method.token, ParseResult::Parsed(MethodToken::PA));
    assert_eq!(inv.method.category, ParseResult::Parsed(1));
    assert_eq!(inv.method.sampler, ParseResult::Parsed(Sampler::K));
    assert_eq!(inv.termination.token, ParseResult::Parsed(TerminationToken::TM));
    // The investigation carries the file's spatial reference.
    assert_eq!(
        inv.spatial.coordinate_system,
        ParseResult::Parsed(CoordinateSystem::WGS84)
    );

    assert_eq!(inv.observations.len(), 1);
    match &inv.observations[0].values {
        ObservationValues::PA { depth, load, hits, half_turns, soil_type } => {
            assert_eq!(*depth, ParseResult::Parsed(Decimal::from_micro(5_000_000)));
            assert_eq!(*load, ParseResult::Parsed(Decimal::from_micro(1_200_000)));
            assert_eq!(*hits, ParseResult::Missing);
            assert_eq!(*half_turns, ParseResult::Parsed(3));
            assert_eq!(*soil_type, ParseResult::Parsed("clay".to_string()));
        }
        other => panic!("expected a PA observation, got {:?}", other),
    }
}

#[test]
fn pa_dual_encoding() {
    let input = lines(&["TT PA", "5.0 2.5", "6.0 -3", "7.0 abc", "-1 TM"]);
    let file = InfraFile::parse_lines(&input, None, None);
    let obs = &file.investigations[0].observations;
    assert_eq!(obs.len(), 3);
    match &obs[0].values {
        ObservationValues::PA { load, hits, .. } => {
            assert_eq!(*load, ParseResult::Parsed(Decimal::from_micro(2_500_000)));
            assert_eq!(*hits, ParseResult::Missing);
        }
        other => panic!("expected PA, got {:?}", other),
    }
    match &obs[1].values {
        ObservationValues::PA { load, hits, .. } => {
            assert_eq!(*load, ParseResult::Missing);
            assert_eq!(*hits, ParseResult::Parsed(3));
        }
        other => panic!("expected PA, got {:?}", other),
    }
    // An undecodable second column sets neither half.
    match &obs[2].values {
        ObservationValues::PA { load, hits, .. } => {
            assert_eq!(*load, ParseResult::Missing);
            assert_eq!(*hits, ParseResult::Missing);
        }
        other => panic!("expected PA, got {:?}", other),
    }
}

#[test]
fn terminator_round_trip() {
    let input = lines(&["TT PA", "1.0 1 1 silt", "-1 TM", "TT HE", "2.0 5 clay", "-1 KI"]);
    let file = InfraFile::parse_lines(&input, None, None);
    assert_eq!(file.investigations.len(), 2);
    assert_eq!(
        file.investigations[0].method.token,
        ParseResult::Parsed(MethodToken::PA)
    );
    assert_eq!(
        file.investigations[0].termination.token,
        ParseResult::Parsed(TerminationToken::TM)
    );
    assert_eq!(
        file.investigations[1].method.token,
        ParseResult::Parsed(MethodToken::HE)
    );
    assert_eq!(
        file.investigations[1].termination.token,
        ParseResult::Parsed(TerminationToken::KI)
    );
}

#[test]
fn unknown_record_code_changes_nothing() {
    let mut infra = InfraFile::new();
    let mut inv = Investigation::new();
    InfraFile::dispatch_line(&mut infra, &mut inv, "TT PA 1");
    InfraFile::dispatch_line(&mut infra, &mut inv, "1.0 0.5 2 clay");
    let infra_before = infra.clone();
    let inv_before = inv.clone();
    InfraFile::dispatch_line(&mut infra, &mut inv, "ZZ 1 2 3");
    assert_eq!(infra, infra_before);
    assert_eq!(inv, inv_before);
}

#[test]
fn blank_lines_are_skipped() {
    let input = lines(&["", "   ", "TT PA", "\t", "1.0 1 1 x", "-1 TM"]);
    let file = InfraFile::parse_lines(&input, None, None);
    assert_eq!(file.investigations.len(), 1);
    assert_eq!(file.investigations[0].observations.len(), 1);
}

#[test]
fn numeric_row_without_method_is_discarded() {
    let input = lines(&["1.0 2.0 3.0", "TT QQ", "2.0 3.0", "-1 TM"]);
    let file = InfraFile::parse_lines(&input, None, None);
    // Neither row lands: no method at first, then an undecodable one.
    assert_eq!(file.investigations.len(), 1);
    assert_eq!(file.investigations[0].observations.len(), 0);
}

#[test]
fn columns_past_the_line_end_are_missing() {
    let input = lines(&["FO 1", "-1"]);
    let file = InfraFile::parse_lines(&input, None, None);
    assert_eq!(file.format.version, ParseResult::Parsed("1".to_string()));
    assert_eq!(file.format.used_software, ParseResult::Missing);
    assert_eq!(file.format.software_version, ParseResult::Missing);
    assert_eq!(file.investigations[0].termination.token, ParseResult::Missing);
}

#[test]
fn hp_mode_selected_columns() {
    let input = lines(&["TT HP", "1.0 7 2.5 H x", "2.0 3.5 2.5 P y", "3.0 9 2.5 Q z", "4.0 9", "-1 TM"]);
    let file = InfraFile::parse_lines(&input, None, None);
    let obs = &file.investigations[0].observations;
    assert_eq!(obs.len(), 4);
    match &obs[0].values {
        ObservationValues::HP { hits, pressure, .. } => {
            assert_eq!(*hits, ParseResult::Parsed(7));
            assert_eq!(*pressure, ParseResult::Missing);
        }
        other => panic!("expected HP, got {:?}", other),
    }
    match &obs[1].values {
        ObservationValues::HP { hits, pressure, .. } => {
            assert_eq!(*hits, ParseResult::Missing);
            assert_eq!(*pressure, ParseResult::Parsed(Decimal::from_micro(3_500_000)));
        }
        other => panic!("expected HP, got {:?}", other),
    }
    // An unknown flag leaves both unset but the row is still appended.
    match &obs[2].values {
        ObservationValues::HP { hits, pressure, mode, .. } => {
            assert_eq!(*hits, ParseResult::Missing);
            assert_eq!(*pressure, ParseResult::Missing);
            assert_eq!(*mode, ParseResult::Parsed("Q".to_string()));
        }
        other => panic!("expected HP, got {:?}", other),
    }
    // So does a row with no flag column at all, its mode left absent; the
    // soil-type backfill then fills its absent soil column from the row
    // before.
    assert_eq!(
        obs[3].values,
        ObservationValues::HP {
            depth: ParseResult::Parsed(Decimal::from_micro(4_000_000)),
            hits: ParseResult::Missing,
            pressure: ParseResult::Missing,
            torque: ParseResult::Missing,
            mode: ParseResult::Missing,
            soil_type: ParseResult::Parsed("z".to_string()),
        }
    );
}

#[test]
fn annotations_target_the_last_observation() {
    let input = lines(&[
        "HM before any observation",
        "TX loose words",
        "HT out of sight",
        "EM dropped without observation",
        "TT PI",
        "1.0 clay",
        "HM attached note",
        "EM peat",
        "-1 TM",
    ]);
    let file = InfraFile::parse_lines(&input, None, None);
    let inv = &file.investigations[0];
    assert_eq!(
        inv.notes,
        vec![ParseResult::Parsed("before any observation".to_string())]
    );
    assert_eq!(inv.free_text, vec![ParseResult::Parsed("loose words".to_string())]);
    assert_eq!(inv.hidden_text, vec![ParseResult::Parsed("out of sight".to_string())]);
    let obs = &inv.observations[0];
    assert_eq!(obs.notes, vec![ParseResult::Parsed("attached note".to_string())]);
    assert_eq!(
        obs.unofficial_soil_type,
        vec![ParseResult::Parsed("peat".to_string())]
    );
}

#[test]
fn lab_results_attach_only_to_samples() {
    let input = lines(&[
        "TT NO",
        "1.0 s1 1.5 clay",
        "RK 0.063 12.5",
        "LB w 25 pct",
        "-1 TM",
        "TT PI",
        "1.0 clay",
        "RK 0.063 12.5",
        "-1 TM",
    ]);
    let file = InfraFile::parse_lines(&input, None, None);
    match &file.investigations[0].observations[0].values {
        ObservationValues::NO { lab_values, sample_id, .. } => {
            assert_eq!(*sample_id, ParseResult::Parsed("s1".to_string()));
            assert_eq!(lab_values.len(), 2);
            assert_eq!(
                lab_values[0],
                ParseResult::Parsed(LabResult::GrainSize {
                    grain_mm: ParseResult::Parsed(Decimal::from_micro(63_000)),
                    pass_percent: ParseResult::Parsed(Decimal::from_micro(12_500_000)),
                })
            );
            assert_eq!(
                lab_values[1],
                ParseResult::Parsed(LabResult::Other {
                    attribute: ParseResult::Parsed("w".to_string()),
                    result: ParseResult::Parsed("25".to_string()),
                    unit: ParseResult::Parsed("pct".to_string()),
                })
            );
        }
        other => panic!("expected NO, got {:?}", other),
    }
    // A lab line after a non-sample observation is dropped.
    match &file.investigations[1].observations[0].values {
        ObservationValues::PI { soil_type, .. } => {
            assert_eq!(*soil_type, ParseResult::Parsed("clay".to_string()));
        }
        other => panic!("expected PI, got {:?}", other),
    }
}

#[test]
fn file_metadata_is_carried_through() {
    let input = lines(&["TT PA", "-1 TM"]);
    let file = InfraFile::parse_lines(
        &input,
        Some("site/a.txt".to_string()),
        Some("windows-1252".to_string()),
    );
    assert_eq!(file.file_info.path, Some("site/a.txt".to_string()));
    assert_eq!(file.file_info.encoding, Some("windows-1252".to_string()));
    assert_eq!(file.investigations[0].file_info.path, Some("site/a.txt".to_string()));
    assert_eq!(
        file.investigations[0].file_info.encoding,
        Some("windows-1252".to_string())
    );
}

#[test]
fn open_investigation_is_not_emitted() {
    let input = lines(&["TT PA", "1.0 1 1 x"]);
    let file = InfraFile::parse_lines(&input, None, None);
    assert_eq!(file.investigations.len(), 0);
}
