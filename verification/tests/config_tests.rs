use nss_http::config::{config_from_env_values, parse_bool, parse_u64};

#[test]
fn defaults_apply_when_values_are_absent() {
    let cfg = config_from_env_values(None, None, None).expect("defaults must build");
    assert_eq!(cfg.endpoint, None);
    assert_eq!(cfg.timeout_secs, 30);
    assert!(!cfg.debug);
}

#[test]
fn endpoint_passes_through_unchanged() {
    let cfg = config_from_env_values(Some("http://h:8000".to_string()), None, None).unwrap();
    assert_eq!(cfg.endpoint.as_deref(), Some("http://h:8000"));
}

#[test]
fn explicit_values_are_parsed() {
    let cfg = config_from_env_values(
        Some("http://h".to_string()),
        Some("true".to_string()),
        Some("5".to_string()),
    )
    .unwrap();
    assert!(cfg.debug);
    assert_eq!(cfg.timeout_secs, 5);
    let cfg = config_from_env_values(None, Some("false".to_string()), Some("0".to_string()))
        .unwrap();
    assert!(!cfg.debug);
    assert_eq!(cfg.timeout_secs, 0);
}

#[test]
fn unparsable_debug_value_is_a_startup_defect() {
    assert!(config_from_env_values(None, Some("yes".to_string()), None).is_none());
    assert!(config_from_env_values(None, Some("True".to_string()), None).is_none());
    assert!(config_from_env_values(None, Some(String::new()), None).is_none());
}

#[test]
fn unparsable_timeout_value_is_a_startup_defect() {
    assert!(config_from_env_values(None, None, Some("soon".to_string())).is_none());
    assert!(config_from_env_values(None, None, Some("-1".to_string())).is_none());
    assert!(config_from_env_values(None, None, Some("1.5".to_string())).is_none());
    assert!(config_from_env_values(None, None, Some(String::new())).is_none());
}

#[test]
fn bool_parsing_accepts_exactly_true_and_false() {
    assert_eq!(parse_bool("true"), Some(true));
    assert_eq!(parse_bool("false"), Some(false));
    assert_eq!(parse_bool("TRUE"), None);
    assert_eq!(parse_bool("1"), None);
    assert_eq!(parse_bool(""), None);
    assert_eq!(parse_bool("truex"), None);
}

#[test]
fn u64_parsing_matches_decimal_with_optional_plus() {
    assert_eq!(parse_u64("30"), Some(30));
    assert_eq!(parse_u64("+30"), Some(30));
    assert_eq!(parse_u64("0"), Some(0));
    assert_eq!(parse_u64("18446744073709551615"), Some(u64::MAX));
    assert_eq!(parse_u64("18446744073709551616"), None);
    assert_eq!(parse_u64("99999999999999999999999"), None);
    assert_eq!(parse_u64(""), None);
    assert_eq!(parse_u64("+"), None);
    assert_eq!(parse_u64("-1"), None);
    assert_eq!(parse_u64("1x"), None);
    assert_eq!(parse_u64(" 1"), None);
}
