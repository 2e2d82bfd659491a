//! The post-processing pass: soil-type backfill, total depth, soil layers,
//! and aggregation over collections.

use infra_format::{
    Decimal, HasInvestigations, InfraFile, Investigation, InvestigationAggregator,
    InvestigationCollection, MethodToken, Observation, ObservationValues, ParseResult, SoilLayer,
};

fn pa_observation(depth_micro: i64, soil: ParseResult<String>) -> Observation {
    Observation::with_values(ObservationValues::PA {
        depth: ParseResult::Parsed(Decimal::from_micro(depth_micro)),
        load: ParseResult::Missing,
        hits: ParseResult::Missing,
        half_turns: ParseResult::Missing,
        soil_type: soil,
    })
}

#[test]
fn backfill_carries_the_last_known_soil_type() {
    let mut inv = Investigation::new();
    inv.observations.push(pa_observation(1_000_000, ParseResult::Missing));
    inv.observations.push(pa_observation(2_000_000, ParseResult::Parsed("clay".to_string())));
    inv.observations.push(pa_observation(3_000_000, ParseResult::Missing));
    inv.observations.push(pa_observation(4_000_000, ParseResult::Fallback("??".to_string())));
    inv.add_missing_soil_types();

    let soils: Vec<ParseResult<String>> = inv
        .observations
        .iter()
        .map(|o| match &o.values {
            ObservationValues::PA { soil_type, .. } => soil_type.clone(),
            other => panic!("expected PA, got {:?}", other),
        })
        .collect();
    assert_eq!(
        soils,
        vec![
            ParseResult::Missing,
            ParseResult::Parsed("clay".to_string()),
            ParseResult::Parsed("clay".to_string()),
            ParseResult::Parsed("clay".to_string()),
        ]
    );
}

#[test]
fn backfill_is_idempotent() {
    let mut once = Investigation::new();
    once.observations.push(pa_observation(1_000_000, ParseResult::Parsed("silt".to_string())));
    once.observations.push(pa_observation(2_000_000, ParseResult::Missing));
    once.observations.push(pa_observation(3_000_000, ParseResult::Parsed("sand".to_string())));
    once.observations.push(pa_observation(4_000_000, ParseResult::Fallback("x".to_string())));
    let mut twice = once.clone();

    once.add_missing_soil_types();
    twice.add_missing_soil_types();
    twice.add_missing_soil_types();
    assert_eq!(once, twice);
}

#[test]
fn layer_merge() {
    let mut inv = Investigation::new();
    inv.observations.push(pa_observation(1_000_000, ParseResult::Parsed("clay".to_string())));
    inv.observations.push(pa_observation(2_000_000, ParseResult::Parsed("clay".to_string())));
    inv.observations.push(pa_observation(2_500_000, ParseResult::Parsed("sand".to_string())));
    inv.calculate_soil_layer_thicknesses();
    assert_eq!(
        inv.soil_layers,
        vec![
            SoilLayer { soil_type: "clay".to_string(), thickness: Decimal::from_micro(2_000_000) },
            SoilLayer { soil_type: "sand".to_string(), thickness: Decimal::from_micro(500_000) },
        ]
    );
}

#[test]
fn layers_skip_negative_thickness_and_gaps() {
    let mut inv = Investigation::new();
    inv.observations.push(pa_observation(2_000_000, ParseResult::Parsed("clay".to_string())));
    // Shallower than the previous depth: discarded.
    inv.observations.push(pa_observation(1_000_000, ParseResult::Parsed("sand".to_string())));
    // No soil type: skipped without moving the previous depth.
    inv.observations.push(pa_observation(5_000_000, ParseResult::Missing));
    inv.observations.push(pa_observation(3_000_000, ParseResult::Parsed("silt".to_string())));
    inv.calculate_soil_layer_thicknesses();
    assert_eq!(
        inv.soil_layers,
        vec![
            SoilLayer { soil_type: "clay".to_string(), thickness: Decimal::from_micro(2_000_000) },
            SoilLayer { soil_type: "silt".to_string(), thickness: Decimal::from_micro(1_000_000) },
        ]
    );
}

#[test]
fn total_depth_comes_from_the_last_depth_bearing_observation() {
    let input: Vec<String> = ["TT PA", "1.0 1 1 clay", "2.5 1 1 sand", "-1 TM"]
        .iter()
        .map(|s| s.to_string())
        .collect();
    let file = InfraFile::parse_lines(&input, None, None);
    assert_eq!(
        file.investigations[0].total_depth,
        Some(Decimal::from_micro(2_500_000))
    );
    assert_eq!(
        file.investigations[0].soil_layers,
        vec![
            SoilLayer { soil_type: "clay".to_string(), thickness: Decimal::from_micro(1_000_000) },
            SoilLayer { soil_type: "sand".to_string(), thickness: Decimal::from_micro(1_500_000) },
        ]
    );
}

#[test]
fn total_depth_skips_trailing_depthless_observations() {
    // A standpipe reading after the sounding rows carries no depth column,
    // so the total depth comes from the last sounding row.
    let input: Vec<String> = [
        "TT PA",
        "5.0 1 1 clay",
        "TT VPK",
        "10.0 01062021",
        "-1 TM",
    ]
    .iter()
    .map(|s| s.to_string())
    .collect();
    let file = InfraFile::parse_lines(&input, None, None);
    assert_eq!(file.investigations[0].observations.len(), 2);
    assert_eq!(
        file.investigations[0].total_depth,
        Some(Decimal::from_micro(5_000_000))
    );
}

#[test]
fn total_depth_unset_when_the_deciding_column_did_not_decode() {
    // The last depth-carrying observation decides: its depth column did not
    // decode (thirteen significant digits), so the total depth stays unset
    // even though an earlier row decoded.
    let input: Vec<String> = ["TT PA", "5.0 1 1 clay", "9999999999999 1 1 silt", "-1 TM"]
        .iter()
        .map(|s| s.to_string())
        .collect();
    let file = InfraFile::parse_lines(&input, None, None);
    assert_eq!(file.investigations[0].observations.len(), 2);
    assert_eq!(file.investigations[0].total_depth, None);
}

#[test]
fn backfill_runs_before_layers_in_the_parse() {
    let input: Vec<String> = ["TT PA", "1.0 1 1 clay", "2.0 1 1", "-1 TM"]
        .iter()
        .map(|s| s.to_string())
        .collect();
    let file = InfraFile::parse_lines(&input, None, None);
    // The second row's missing soil type was backfilled, so both rows merge
    // into one clay layer reaching the total depth.
    assert_eq!(
        file.investigations[0].soil_layers,
        vec![SoilLayer { soil_type: "clay".to_string(), thickness: Decimal::from_micro(2_000_000) }]
    );
}

#[test]
fn count_investigations_per_method() {
    let input: Vec<String> = [
        "TT PA", "-1 TM", "TT HE", "-1 TM", "TT PA", "-1 TM", "TT QQ", "-1 TM",
    ]
    .iter()
    .map(|s| s.to_string())
    .collect();
    let file = InfraFile::parse_lines(&input, None, None);
    assert_eq!(file.investigations.len(), 4);
    let counts = file.count_investigations();
    assert_eq!(counts.len(), 2);
    assert!(counts.contains(&(MethodToken::PA, 2)));
    assert!(counts.contains(&(MethodToken::HE, 1)));
}

#[test]
fn collection_absorbs_files_in_order() {
    let a: Vec<String> = ["TT PA", "-1 TM"].iter().map(|s| s.to_string()).collect();
    let b: Vec<String> = ["TT HE", "-1 TM", "TT SI", "-1 TM"]
        .iter()
        .map(|s| s.to_string())
        .collect();
    let file_a = InfraFile::parse_lines(&a, Some("a.txt".to_string()), None);
    let file_b = InfraFile::parse_lines(&b, Some("b.txt".to_string()), None);

    let mut collection = InvestigationCollection::new();
    collection.absorb(file_a);
    collection.absorb(file_b);

    let invs = collection.investigations();
    assert_eq!(invs.len(), 3);
    assert_eq!(invs[0].method.token, ParseResult::Parsed(MethodToken::PA));
    assert_eq!(invs[0].file_info.path, Some("a.txt".to_string()));
    assert_eq!(invs[1].method.token, ParseResult::Parsed(MethodToken::HE));
    assert_eq!(invs[1].file_info.path, Some("b.txt".to_string()));
    assert_eq!(invs[2].method.token, ParseResult::Parsed(MethodToken::SI));

    let counts = collection.count_investigations();
    assert_eq!(counts.len(), 3);
    assert!(counts.contains(&(MethodToken::PA, 1)));
    assert!(counts.contains(&(MethodToken::HE, 1)));
    assert!(counts.contains(&(MethodToken::SI, 1)));
}

#[test]
fn collection_from_one_file() {
    let a: Vec<String> = ["TT KO", "1.0 till 0.3 2 1.5 0.5", "-1 KA"]
        .iter()
        .map(|s| s.to_string())
        .collect();
    let file = InfraFile::parse_lines(&a, None, None);
    let collection = InvestigationCollection::from_infra_file(file);
    assert_eq!(collection.investigations.len(), 1);
    match &collection.investigations[0].observations[0].values {
        ObservationValues::KO { soil_type, boulders, .. } => {
            assert_eq!(*soil_type, ParseResult::Parsed("till".to_string()));
            assert_eq!(*boulders, ParseResult::Parsed(2));
        }
        other => panic!("expected KO, got {:?}", other),
    }
}
