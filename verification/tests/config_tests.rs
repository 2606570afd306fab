use graph_graphql::config::{parse_u32, parse_u64, parse_u8, Config, ConfigError};

#[test]
fn parses_plain_decimals() {
    assert_eq!(parse_u64(b"0"), Some(0));
    assert_eq!(parse_u64(b"42"), Some(42));
    assert_eq!(parse_u64(b"18446744073709551615"), Some(u64::MAX));
    assert_eq!(parse_u8(b"255"), Some(255));
    assert_eq!(parse_u32(b"4294967295"), Some(u32::MAX));
}

#[test]
fn accepts_leading_plus() {
    assert_eq!(parse_u64(b"+5"), Some(5));
    assert_eq!(parse_u8(b"+0"), Some(0));
}

#[test]
fn rejects_malformed_settings() {
    assert_eq!(parse_u64(b""), None);
    assert_eq!(parse_u64(b"+"), None);
    assert_eq!(parse_u64(b"-1"), None);
    assert_eq!(parse_u64(b"30s"), None);
    assert_eq!(parse_u64(b" 30"), None);
    assert_eq!(parse_u64(b"3.5"), None);
}

#[test]
fn rejects_out_of_range_settings() {
    assert_eq!(parse_u64(b"18446744073709551616"), None);
    assert_eq!(parse_u64(b"99999999999999999999999"), None);
    assert_eq!(parse_u8(b"256"), None);
    assert_eq!(parse_u32(b"4294967296"), None);
}

#[test]
fn builds_config_from_valid_settings() {
    let c = Config::from_settings(
        Some(b"30".as_slice()),
        Some(b"1000000".as_slice()),
        Some(b"100".as_slice()),
        Some(b"500".as_slice()),
    )
    .unwrap();
    assert_eq!(c.query_timeout, Some(30));
    assert_eq!(c.max_complexity, Some(1000000));
    assert_eq!(c.max_depth, Some(100));
    assert_eq!(c.max_first, Some(500));
}

#[test]
fn absent_settings_stay_unset() {
    let c = Config::from_settings(None, None, None, None).unwrap();
    assert_eq!(c, Config::unset());
    assert_eq!(c.query_timeout, None);
    assert_eq!(c.max_complexity, None);
    assert_eq!(c.max_depth, None);
    assert_eq!(c.max_first, None);
}

#[test]
fn malformed_settings_fail_fast_with_the_culprit() {
    assert_eq!(
        Config::from_settings(Some(b"abc".as_slice()), None, None, None),
        Err(ConfigError::InvalidQueryTimeout)
    );
    assert_eq!(
        Config::from_settings(None, Some(b"1e9".as_slice()), None, None),
        Err(ConfigError::InvalidMaxComplexity)
    );
    assert_eq!(
        Config::from_settings(None, None, Some(b"300".as_slice()), None),
        Err(ConfigError::InvalidMaxDepth)
    );
    assert_eq!(
        Config::from_settings(None, None, None, Some(b"".as_slice())),
        Err(ConfigError::InvalidMaxFirst)
    );
}
