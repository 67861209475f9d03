use confload::parse_config_file;
use confload::sample::StrictTimeoutConfig;
use confload::sample::TimeoutConfig;
use confload::Config;
use confload::ConfigError;
use confload::ConfigFormat;

#[test]
fn toml_file_with_no_validation_rules_loads() {
    let r: Result<TimeoutConfig, ConfigError> =
        parse_config_file("app.toml", Ok("timeout = 30".to_string()), None);
    assert_eq!(r.unwrap(), TimeoutConfig { timeout: 30 });
}

#[test]
fn json_file_loads_through_extension_inference() {
    let r: Result<StrictTimeoutConfig, ConfigError> =
        parse_config_file("app.json", Ok("{\"timeout\": 7}".to_string()), None);
    assert_eq!(r.unwrap(), StrictTimeoutConfig { timeout: 7 });
}

#[test]
fn upper_case_extension_is_recognized() {
    let r: Result<TimeoutConfig, ConfigError> =
        parse_config_file("APP.TOML", Ok("timeout = 1".to_string()), None);
    assert_eq!(r.unwrap(), TimeoutConfig { timeout: 1 });
}

#[test]
fn rejected_value_yields_a_validation_error() {
    let r: Result<StrictTimeoutConfig, ConfigError> =
        parse_config_file("app.json", Ok("{\"timeout\": -1}".to_string()), None);
    let e = r.unwrap_err();
    assert_eq!(e.kind().unwrap().as_str(), "ValidationError");
    assert_eq!(e.context().unwrap().as_str(), "field: timeout");
}

#[test]
fn hint_overrides_the_extension() {
    let r: Result<TimeoutConfig, ConfigError> = parse_config_file(
        "x.json",
        Ok("timeout = 5".to_string()),
        Some(ConfigFormat::Toml),
    );
    assert_eq!(r.unwrap(), TimeoutConfig { timeout: 5 });
}

#[test]
fn hint_overrides_even_when_the_text_matches_the_extension() {
    let r: Result<TimeoutConfig, ConfigError> = parse_config_file(
        "x.json",
        Ok("{\"timeout\": 5}".to_string()),
        Some(ConfigFormat::Toml),
    );
    let e = r.unwrap_err();
    assert_eq!(e.kind().unwrap().as_str(), "TOML parse error");
}

#[test]
fn read_failure_yields_an_io_error() {
    let r: Result<TimeoutConfig, ConfigError> = parse_config_file(
        "missing.toml",
        Err(ConfigError::new("No such file or directory")),
        None,
    );
    let e = r.unwrap_err();
    assert_eq!(e.kind().unwrap().as_str(), "IOError");
    assert_eq!(e.context().unwrap().as_str(), "missing.toml");
    assert_eq!(e.message(), "Failed to read config file");
    assert_eq!(e.source().unwrap().message(), "No such file or directory");
}

#[test]
fn unrecognized_extension_without_a_hint_yields_a_format_error() {
    let r: Result<TimeoutConfig, ConfigError> =
        parse_config_file("settings.yaml", Ok("timeout = 30".to_string()), None);
    let e = r.unwrap_err();
    assert_eq!(e.kind().unwrap().as_str(), "FormatError");
    assert_eq!(e.context().unwrap().as_str(), "settings.yaml");
    assert_eq!(e.message(), "Unknown configuration format");
    assert!(e.source().is_none());
}

#[test]
fn missing_extension_without_a_hint_yields_a_format_error() {
    let r: Result<TimeoutConfig, ConfigError> =
        parse_config_file("settings", Ok("timeout = 30".to_string()), None);
    assert_eq!(r.unwrap_err().kind().unwrap().as_str(), "FormatError");
}

#[test]
fn malformed_toml_yields_a_chained_parse_error() {
    let r: Result<TimeoutConfig, ConfigError> =
        parse_config_file("a.toml", Ok("timeout = = 30".to_string()), None);
    let e = r.unwrap_err();
    assert_eq!(e.kind().unwrap().as_str(), "TOML parse error");
    assert_eq!(e.message(), "Failed to parse TOML");
    assert!(e.context().is_none());
    assert!(e.source().is_some());
    assert!(!e.source().unwrap().message().is_empty());
}

#[test]
fn malformed_json_yields_a_chained_parse_error() {
    let r: Result<TimeoutConfig, ConfigError> =
        parse_config_file("a.json", Ok("{not json".to_string()), None);
    let e = r.unwrap_err();
    assert_eq!(e.kind().unwrap().as_str(), "JSON parse error");
    assert_eq!(e.message(), "Failed to parse JSON");
    assert!(e.context().is_none());
    assert!(e.source().is_some());
}

#[test]
fn a_document_without_the_field_is_a_parse_error() {
    let r: Result<TimeoutConfig, ConfigError> =
        parse_config_file("a.toml", Ok("port = 1".to_string()), None);
    assert_eq!(r.unwrap_err().kind().unwrap().as_str(), "TOML parse error");
}

#[test]
fn a_non_integer_field_is_a_parse_error() {
    let r: Result<TimeoutConfig, ConfigError> =
        parse_config_file("a.json", Ok("{\"timeout\": \"soon\"}".to_string()), None);
    assert_eq!(r.unwrap_err().kind().unwrap().as_str(), "JSON parse error");
}

#[test]
fn from_toml_str_is_deterministic_on_valid_text() {
    let a = TimeoutConfig::from_toml_str("timeout = 30").unwrap();
    let b = TimeoutConfig::from_toml_str("timeout = 30").unwrap();
    assert_eq!(a, b);
    assert_eq!(a, TimeoutConfig { timeout: 30 });
}

#[test]
fn from_json_str_decodes_valid_text() {
    let a = TimeoutConfig::from_json_str("{\"timeout\": -3}").unwrap();
    assert_eq!(a, TimeoutConfig { timeout: -3 });
}

#[test]
fn from_toml_str_rejects_invalid_text_with_the_toml_kind() {
    let e = TimeoutConfig::from_toml_str("timeout =").unwrap_err();
    assert_eq!(e.kind().unwrap().as_str(), "TOML parse error");
}

#[test]
fn from_json_str_rejects_invalid_text_with_the_json_kind() {
    let e = TimeoutConfig::from_json_str("[1,").unwrap_err();
    assert_eq!(e.kind().unwrap().as_str(), "JSON parse error");
}

#[test]
fn validate_and_build_is_the_identity_on_valid_instances() {
    let c = StrictTimeoutConfig { timeout: 3 };
    assert_eq!(c.validate_and_build().unwrap(), StrictTimeoutConfig { timeout: 3 });
    let unconstrained = TimeoutConfig { timeout: -99 };
    assert_eq!(
        unconstrained.validate_and_build().unwrap(),
        TimeoutConfig { timeout: -99 }
    );
}

#[test]
fn validate_and_build_relays_the_validation_error() {
    let c = StrictTimeoutConfig { timeout: -1 };
    let e = c.validate_and_build().unwrap_err();
    assert_eq!(e.kind().unwrap().as_str(), "ValidationError");
    assert_eq!(e.message(), "timeout must be non-negative");
    assert_eq!(e.context().unwrap().as_str(), "field: timeout");
    assert!(e.source().is_none());
}
