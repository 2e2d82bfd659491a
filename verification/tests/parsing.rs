//! Token-level decoding: the tri-state model and every vocabulary decoder.

use infra_format::{
    ClassificationName, CoordinateSystem, Date, Decimal, Digitized, ElevationSystem,
    InitialBoreToken, MethodToken, ParseResult, ParsedValue, Sampler, TerminationToken,
};

#[test]
fn dash_is_always_missing() {
    assert_eq!(ParseResult::<String>::parse("-"), ParseResult::Missing);
    assert_eq!(ParseResult::<i32>::parse("-"), ParseResult::Missing);
    assert_eq!(ParseResult::<Decimal>::parse("-"), ParseResult::Missing);
    assert_eq!(ParseResult::<Date>::parse("-"), ParseResult::Missing);
    assert_eq!(ParseResult::<CoordinateSystem>::parse("-"), ParseResult::Missing);
}

#[test]
fn string_tokens_always_parse() {
    assert_eq!(
        ParseResult::<String>::parse("anything"),
        ParseResult::Parsed("anything".to_string())
    );
    assert_eq!(ParseResult::<String>::parse(""), ParseResult::Parsed(String::new()));
}

#[test]
fn decimal_comma_parses() {
    assert_eq!(
        ParseResult::<Decimal>::parse("1,5"),
        ParseResult::Parsed(Decimal::from_micro(1_500_000))
    );
    assert_eq!(
        ParseResult::<Decimal>::parse("2.5"),
        ParseResult::Parsed(Decimal::from_micro(2_500_000))
    );
    assert_eq!(
        ParseResult::<Decimal>::parse("-3"),
        ParseResult::Parsed(Decimal::from_micro(-3_000_000))
    );
    assert_eq!(
        ParseResult::<Decimal>::parse("+0.25"),
        ParseResult::Parsed(Decimal::from_micro(250_000))
    );
    assert_eq!(
        ParseResult::<Decimal>::parse("007"),
        ParseResult::Parsed(Decimal::from_micro(7_000_000))
    );
    // The seventh and later fractional digits are not kept.
    assert_eq!(
        ParseResult::<Decimal>::parse("0.1234567"),
        ParseResult::Parsed(Decimal::from_micro(123_456))
    );
}

#[test]
fn decimal_bad_tokens_fall_back() {
    assert_eq!(
        ParseResult::<Decimal>::parse("abc"),
        ParseResult::Fallback("abc".to_string())
    );
    assert_eq!(
        ParseResult::<Decimal>::parse("1."),
        ParseResult::Fallback("1.".to_string())
    );
    assert_eq!(
        ParseResult::<Decimal>::parse(".5"),
        ParseResult::Fallback(".5".to_string())
    );
    assert_eq!(
        ParseResult::<Decimal>::parse("2.5.1"),
        ParseResult::Fallback("2.5.1".to_string())
    );
    assert_eq!(
        ParseResult::<Decimal>::parse(""),
        ParseResult::Fallback(String::new())
    );
    // Thirteen significant integer digits exceed the stored precision.
    assert_eq!(
        ParseResult::<Decimal>::parse("9999999999999"),
        ParseResult::Fallback("9999999999999".to_string())
    );
}

#[test]
fn integer_tokens() {
    assert_eq!(ParseResult::<i32>::parse("42"), ParseResult::Parsed(42));
    assert_eq!(ParseResult::<i32>::parse("-17"), ParseResult::Parsed(-17));
    assert_eq!(ParseResult::<i32>::parse("+8"), ParseResult::Parsed(8));
    assert_eq!(ParseResult::<i32>::parse("0002"), ParseResult::Parsed(2));
    assert_eq!(
        ParseResult::<i32>::parse("2147483647"),
        ParseResult::Parsed(i32::MAX)
    );
    assert_eq!(
        ParseResult::<i32>::parse("-2147483648"),
        ParseResult::Parsed(i32::MIN)
    );
    assert_eq!(
        ParseResult::<i32>::parse("2147483648"),
        ParseResult::Fallback("2147483648".to_string())
    );
    assert_eq!(
        ParseResult::<i32>::parse("1.5"),
        ParseResult::Fallback("1.5".to_string())
    );
}

#[test]
fn compact_dates() {
    assert_eq!(
        ParseResult::<Date>::parse("25121990"),
        ParseResult::Parsed(Date { year: 1990, month: 12, day: 25 })
    );
    assert_eq!(
        ParseResult::<Date>::parse("29022020"),
        ParseResult::Parsed(Date { year: 2020, month: 2, day: 29 })
    );
    // The all-zero token is the format's unknown-date marker.
    assert_eq!(
        ParseResult::<Date>::parse("00000000"),
        ParseResult::Fallback("00000000".to_string())
    );
    // Not a leap year.
    assert_eq!(
        ParseResult::<Date>::parse("29022019"),
        ParseResult::Fallback("29022019".to_string())
    );
    assert_eq!(
        ParseResult::<Date>::parse("32012020"),
        ParseResult::Fallback("32012020".to_string())
    );
}

#[test]
fn coordinate_systems() {
    assert_eq!(
        ParseResult::<CoordinateSystem>::parse("WGS84"),
        ParseResult::Parsed(CoordinateSystem::WGS84)
    );
    assert_eq!(
        ParseResult::<CoordinateSystem>::parse("wgs"),
        ParseResult::Parsed(CoordinateSystem::WGS84)
    );
    assert_eq!(
        ParseResult::<CoordinateSystem>::parse("etrs-gk25"),
        ParseResult::Parsed(CoordinateSystem::GK25)
    );
    assert_eq!(
        ParseResult::<CoordinateSystem>::parse("TM35FIN"),
        ParseResult::Parsed(CoordinateSystem::TM35)
    );
    assert_eq!(
        ParseResult::<CoordinateSystem>::parse("mars"),
        ParseResult::Fallback("mars".to_string())
    );
}

#[test]
fn elevation_systems() {
    assert_eq!(
        ParseResult::<ElevationSystem>::parse("n2000"),
        ParseResult::Parsed(ElevationSystem::N2000)
    );
    assert_eq!(
        ParseResult::<ElevationSystem>::parse("N60"),
        ParseResult::Parsed(ElevationSystem::N60)
    );
    assert_eq!(
        ParseResult::<ElevationSystem>::parse("sea"),
        ParseResult::Fallback("sea".to_string())
    );
}

#[test]
fn method_tokens_and_aliases() {
    assert_eq!(
        ParseResult::<MethodToken>::parse("pa"),
        ParseResult::Parsed(MethodToken::PA)
    );
    assert_eq!(
        ParseResult::<MethodToken>::parse("WST"),
        ParseResult::Parsed(MethodToken::PA)
    );
    assert_eq!(
        ParseResult::<MethodToken>::parse("CPTU"),
        ParseResult::Parsed(MethodToken::CU)
    );
    assert_eq!(
        ParseResult::<MethodToken>::parse("vpk"),
        ParseResult::Parsed(MethodToken::VPK)
    );
    // An unknown method never becomes a valid-looking default.
    assert_eq!(
        ParseResult::<MethodToken>::parse("QQ"),
        ParseResult::Fallback("QQ".to_string())
    );
}

#[test]
fn samplers() {
    assert_eq!(ParseResult::<Sampler>::parse("k"), ParseResult::Parsed(Sampler::K));
    assert_eq!(ParseResult::<Sampler>::parse("ST-50"), ParseResult::Parsed(Sampler::ST50));
    assert_eq!(ParseResult::<Sampler>::parse("st60"), ParseResult::Parsed(Sampler::ST60));
    assert_eq!(
        ParseResult::<Sampler>::parse("spoon"),
        ParseResult::Fallback("spoon".to_string())
    );
}

#[test]
fn termination_tokens() {
    assert_eq!(
        ParseResult::<TerminationToken>::parse("tm"),
        ParseResult::Parsed(TerminationToken::TM)
    );
    assert_eq!(
        ParseResult::<TerminationToken>::parse("KA"),
        ParseResult::Parsed(TerminationToken::KA)
    );
    assert_eq!(
        ParseResult::<TerminationToken>::parse("zz"),
        ParseResult::Fallback("zz".to_string())
    );
}

#[test]
fn initial_bore_tokens() {
    assert_eq!(
        ParseResult::<InitialBoreToken>::parse("lk"),
        ParseResult::Parsed(InitialBoreToken::LK)
    );
    assert_eq!(
        ParseResult::<InitialBoreToken>::parse("XX"),
        ParseResult::Fallback("XX".to_string())
    );
}

#[test]
fn classification_names() {
    assert_eq!(
        ParseResult::<ClassificationName>::parse("geo"),
        ParseResult::Parsed(ClassificationName::GEO)
    );
    assert_eq!(
        ParseResult::<ClassificationName>::parse("ISO"),
        ParseResult::Parsed(ClassificationName::ISO)
    );
    assert_eq!(
        ParseResult::<ClassificationName>::parse("ASTM"),
        ParseResult::Fallback("ASTM".to_string())
    );
}

#[test]
fn digitized_never_fails() {
    assert_eq!(ParseResult::<Digitized>::parse("D"), ParseResult::Parsed(Digitized::Yes));
    assert_eq!(ParseResult::<Digitized>::parse("d"), ParseResult::Parsed(Digitized::No));
    assert_eq!(ParseResult::<Digitized>::parse("x"), ParseResult::Parsed(Digitized::No));
}

#[test]
fn tri_state_accessors() {
    let missing = ParseResult::<i32>::new();
    assert!(missing.is_none());
    assert!(!missing.is_some());
    assert!(!missing.is_fallback());

    let parsed = ParseResult::some(5);
    assert!(parsed.is_some());

    let fb = ParseResult::<i32>::fallback("raw".to_string());
    assert!(fb.is_fallback());
    assert_eq!(fb.unwrap_fallback(), Some("raw".to_string()));
    assert_eq!(parsed.unwrap_fallback(), None);
}

#[test]
fn format_display_text() {
    let parsed = ParseResult::<CoordinateSystem>::parse("WGS84");
    assert_eq!(parsed.format_display(), Some("WGS84".to_string()));
    let fallback = ParseResult::<CoordinateSystem>::parse("nope");
    assert_eq!(fallback.format_display(), Some("nope (fallback)".to_string()));
    let missing = ParseResult::<CoordinateSystem>::parse("-");
    assert_eq!(missing.format_display(), None);
    let text = ParseResult::<String>::parse("hello");
    assert_eq!(text.format_display(), Some("hello".to_string()));
}

#[test]
fn parsed_value_mirrors_parse_result() {
    assert_eq!(ParsedValue::<String>::parse("-"), ParsedValue::Missing);
    assert_eq!(
        ParsedValue::<Decimal>::parse("1,5"),
        ParsedValue::Parsed(Decimal::from_micro(1_500_000))
    );
    assert_eq!(
        ParsedValue::<i32>::parse("abc"),
        ParsedValue::Fallback("abc".to_string())
    );
    let v = ParsedValue::<i32>::new();
    assert!(v.is_none());
    assert!(ParsedValue::some(1).is_some());
    let fb = ParsedValue::<i32>::fallback("x".to_string());
    assert!(fb.is_fallback());
    assert_eq!(fb.unwrap_fallback(), Some("x".to_string()));
}
