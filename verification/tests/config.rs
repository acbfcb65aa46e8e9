use websvc::config::{parse_bool_value, AppConfig, ConfigError};

#[test]
fn test_enable_profiling() {
    let configs = AppConfig::build(Some("1")).expect("Could not create configuration");

    assert!(configs.profiling_enabled());
    assert!(configs.profiling);
}

#[test]
fn build_unset_defaults_to_false() {
    let configs = AppConfig::build(None).expect("Could not create configuration");

    assert!(!configs.profiling_enabled());
}

#[test]
fn build_accepts_truthy_encodings() {
    let truthy: [&str; 9] = ["1", "true", "TRUE", "True", "on", "ON", "yes", "YES", "yEs"];
    for value in truthy {
        let configs = AppConfig::build(Some(value)).expect("Could not create configuration");
        assert!(configs.profiling_enabled());
    }
}

#[test]
fn build_accepts_falsy_encodings() {
    let falsy: [&str; 8] = ["0", "false", "FALSE", "False", "off", "OFF", "no", "No"];
    for value in falsy {
        let configs = AppConfig::build(Some(value)).expect("Could not create configuration");
        assert!(!configs.profiling_enabled());
    }
}

#[test]
fn build_rejects_non_boolean_value() {
    let res = AppConfig::build(Some("notabool"));

    assert!(matches!(res, Err(ConfigError::InvalidBool(ref v)) if v == "notabool"));
}

#[test]
fn build_rejects_near_miss_encodings() {
    let bad: [&str; 5] = ["", "2", "truthy", " true", "yes "];
    for value in bad {
        let res = AppConfig::build(Some(value));
        assert!(matches!(res, Err(ConfigError::InvalidBool(ref v)) if v == value));
    }
}

#[test]
fn parse_bool_value_recognizes_encodings_only() {
    assert_eq!(parse_bool_value("1"), Some(true));
    assert_eq!(parse_bool_value("On"), Some(true));
    assert_eq!(parse_bool_value("0"), Some(false));
    assert_eq!(parse_bool_value("oFF"), Some(false));
    assert_eq!(parse_bool_value("notabool"), None);
    assert_eq!(parse_bool_value(""), None);
}

#[test]
fn config_error_describes_offending_text() {
    let res = AppConfig::build(Some("notabool"));
    let err = match res {
        Err(e) => e,
        Ok(_) => panic!("expected a configuration error"),
    };

    assert_eq!(err.describe(), "invalid boolean value: notabool");
}

#[test]
fn default_config_has_profiling_disabled() {
    let configs = AppConfig::default();

    assert!(!configs.profiling_enabled());
}

#[test]
fn enable_profiling_sets_the_flag() {
    let mut configs = AppConfig::default();

    configs.enable_profiling(true);
    assert!(configs.profiling_enabled());

    configs.enable_profiling(false);
    assert!(!configs.profiling_enabled());
}

#[test]
fn profiling_set_then_unset_scenario() {
    let configs = AppConfig::build(Some("1")).expect("Could not create configuration");
    assert!(configs.profiling_enabled());

    let configs = AppConfig::build(None).expect("Could not create configuration");
    assert!(!configs.profiling_enabled());
}
