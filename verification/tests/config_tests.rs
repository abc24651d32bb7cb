use icalctl::config::{config_directory_verdict, config_file_verdict, ConfigFileFacts};
use icalctl::config::{
    default_calendar_id, effective_value, line_and_column, load, parse_error_message,
    require_known_key, set_value_source, trim_line_ends, typed_config_value, validate, BindAddress,
    Config, ConfigValue, KeyKind, SetValueSource, MAX_TRAVEL_RANGE_DAYS, REDACTED,
};

fn check_non_loopback_server_bind_is_rejected() {
    let mut config = Config::default();
    config.travel.server.bind = "0.0.0.0".to_string();
    // "0.0.0.0" parses as an IP address that is not a loopback address.
    assert!(validate(&config, BindAddress::Other).is_err());
}

#[test]
fn config_non_loopback_server_bind_is_rejected() {
    check_non_loopback_server_bind_is_rejected();
}

#[test]
fn tests_non_loopback_server_bind_is_rejected() {
    check_non_loopback_server_bind_is_rejected();
}

fn check_oversized_default_travel_range_is_rejected() {
    let mut config = Config::default();
    config.travel.default_range_days = MAX_TRAVEL_RANGE_DAYS + 1;
    assert!(validate(&config, BindAddress::Loopback).is_err());
}

#[test]
fn config_oversized_default_travel_range_is_rejected() {
    check_oversized_default_travel_range_is_rejected();
}

#[test]
fn tests_oversized_default_travel_range_is_rejected() {
    check_oversized_default_travel_range_is_rejected();
}

#[test]
fn default_configuration_is_valid_and_safe() {
    let config = Config::default();
    assert!(validate(&config, BindAddress::Loopback).is_ok());
    assert!(config.flightaware.api_key.is_none());
    assert_eq!(config.flightaware.monthly_result_set_limit, 900);
    assert_eq!(config.travel.server.bind, "127.0.0.1");
}

#[test]
fn validation_reports_the_first_broken_rule() {
    let mut config = Config::default();
    config.config_version = 2;
    config.travel.default_range_days = 0;
    assert_eq!(
        validate(&config, BindAddress::Loopback).expect_message(),
        "unsupported config_version 2; expected 1"
    );
    let mut config = Config::default();
    config.flightaware.api_key = Some("  ".to_string());
    assert_eq!(
        validate(&config, BindAddress::Loopback).expect_message(),
        "flightaware.api_key must not be empty"
    );
    let mut config = Config::default();
    config.travel.map.projection = "mercator".to_string();
    assert_eq!(
        validate(&config, BindAddress::Loopback).expect_message(),
        "travel.map.projection must be `map` or `globe`"
    );
    assert_eq!(
        validate(&Config::default(), BindAddress::NotAnAddress).expect_message(),
        "travel.server.bind must be an IP address"
    );
}

#[test]
fn missing_file_loads_the_defaults() {
    let config = load(None, BindAddress::Other).unwrap();
    assert_eq!(config.travel.default_range_days, 90);
    assert_eq!(default_calendar_id(None, BindAddress::Loopback).unwrap(), None);
    let mut stored = Config::default();
    stored.calendar.default_calendar_id = Some("CAL-1".to_string());
    assert_eq!(
        default_calendar_id(Some(stored), BindAddress::Loopback).unwrap(),
        Some("CAL-1".to_string())
    );
}

fn check_api_key_is_redacted() {
    let mut config = Config::default();
    config.flightaware.api_key = Some("secret".to_string());
    assert_eq!(effective_value(&config, "flightaware.api_key"), REDACTED);
}

#[test]
fn config_api_key_is_redacted() {
    check_api_key_is_redacted();
}

#[test]
fn tests_api_key_is_redacted() {
    check_api_key_is_redacted();
}

fn check_optional_values_report_unset_instead_of_failing() {
    let config = Config::default();
    assert_eq!(
        effective_value(&config, "calendar.default_calendar_id"),
        "<unset>"
    );
    assert_eq!(effective_value(&config, "reminders.default_list_id"), "<unset>");
}

#[test]
fn config_optional_values_report_unset_instead_of_failing() {
    check_optional_values_report_unset_instead_of_failing();
}

#[test]
fn tests_optional_values_report_unset_instead_of_failing() {
    check_optional_values_report_unset_instead_of_failing();
}

#[test]
fn effective_values_render_scalars_and_arrays() {
    let mut config = Config::default();
    config.travel.calendar_ids = vec!["A".to_string(), "B".to_string()];
    assert_eq!(effective_value(&config, "travel.default_range_days"), "90");
    assert_eq!(effective_value(&config, "flightaware.enabled"), "true");
    assert_eq!(effective_value(&config, "travel.calendar_ids"), "[\"A\", \"B\"]");
    assert_eq!(effective_value(&config, "travel.map.projection"), "globe");
}

fn check_secret_values_reject_positional_arguments() {
    let error = match set_value_source(
        "flightaware.api_key",
        KeyKind::Secret,
        Some("secret".to_string()),
        false,
        true,
    ) {
        Err(e) => e,
        Ok(_) => panic!("a secret was accepted as a positional value"),
    };

    assert!(error.contains("hidden prompt or --stdin"));
    assert!(!error.contains("secret"));
}

#[test]
fn config_secret_values_reject_positional_arguments() {
    check_secret_values_reject_positional_arguments();
}

#[test]
fn tests_secret_values_reject_positional_arguments() {
    check_secret_values_reject_positional_arguments();
}

#[test]
fn value_sources_follow_the_documented_order() {
    assert!(matches!(
        set_value_source("travel.server.port", KeyKind::Integer, Some("8123".to_string()), true, true),
        Ok(SetValueSource::Given(v)) if v == "8123"
    ));
    assert!(matches!(
        set_value_source("flightaware.api_key", KeyKind::Secret, None, true, false),
        Ok(SetValueSource::ReadStdin)
    ));
    assert!(matches!(
        set_value_source("flightaware.api_key", KeyKind::Secret, None, false, true),
        Ok(SetValueSource::Prompt { hidden: true })
    ));
    assert!(matches!(
        set_value_source("travel.map.projection", KeyKind::Text, None, false, false),
        Err(m) if m == "VALUE is required when stdin is not a terminal; pass VALUE or --stdin"
    ));
}

#[test]
fn unknown_keys_list_the_known_ones() {
    assert!(require_known_key("travel.server.port").unwrap() == KeyKind::Integer);
    let error = require_known_key("nope").expect_message();
    assert!(error.starts_with("unknown configuration key \"nope\"; valid keys: flightaware.api_key, "));
    assert!(error.ends_with("travel.map.style_url"));
}

#[test]
fn typed_values_follow_the_key_kind() {
    assert!(matches!(
        typed_config_value("travel.server.port", KeyKind::Integer, "-8123"),
        Ok(ConfigValue::Integer(-8123))
    ));
    assert_eq!(
        typed_config_value("travel.server.port", KeyKind::Integer, "12x").expect_message(),
        "travel.server.port must be an integer"
    );
    assert!(matches!(
        typed_config_value("flightaware.enabled", KeyKind::Bool, "false"),
        Ok(ConfigValue::Bool(false))
    ));
    assert_eq!(
        typed_config_value("flightaware.enabled", KeyKind::Bool, "yes").expect_message(),
        "flightaware.enabled must be true or false"
    );
    assert!(matches!(
        typed_config_value("travel.calendar_ids", KeyKind::StringArray, "[\"A\", \"B\"]"),
        Ok(ConfigValue::StringArray(items)) if items == vec!["A".to_string(), "B".to_string()]
    ));
    assert_eq!(
        typed_config_value("travel.calendar_ids", KeyKind::StringArray, "[1]").expect_message(),
        "travel.calendar_ids must be a TOML string array"
    );
    assert!(typed_config_value("calendar.default_calendar_id", KeyKind::Text, "").is_err());
}

#[test]
fn trailing_line_ends_are_trimmed_once_and_for_all() {
    assert_eq!(trim_line_ends("key\r\n\n"), "key");
    assert_eq!(trim_line_ends(&trim_line_ends("key\r\n")), "key");
    assert_eq!(trim_line_ends("a\nb\n"), "a\nb");
}

fn check_parse_errors_do_not_echo_secret_source_lines() {
    let contents = b"config_version = 1\n[flightaware]\napi_key = \"super-secret\n";
    let offset = contents.len() - 14;
    let location = line_and_column(contents, offset);
    let error = parse_error_message("/Users/me/.config/icalctl/config.toml", Some(location));

    assert!(error.contains("line 3"));
    assert!(!error.contains("super-secret"));
}

#[test]
fn config_parse_errors_do_not_echo_secret_source_lines() {
    check_parse_errors_do_not_echo_secret_source_lines();
}

#[test]
fn tests_parse_errors_do_not_echo_secret_source_lines() {
    check_parse_errors_do_not_echo_secret_source_lines();
}

#[test]
fn line_and_column_count_characters_after_the_last_line_feed() {
    assert_eq!(line_and_column(b"ab\ncd", 4), (2, 2));
    assert_eq!(line_and_column(b"ab", 9), (1, 3));
    assert_eq!(line_and_column("é\nx".as_bytes(), 2), (1, 2));
    assert_eq!(
        parse_error_message("c.toml", None),
        "failed to parse configuration c.toml"
    );
}

trait ExpectMessage {
    fn expect_message(self) -> String;
}

impl<T> ExpectMessage for Result<T, String> {
    fn expect_message(self) -> String {
        match self {
            Err(message) => message,
            Ok(_) => panic!("expected an error message"),
        }
    }
}

#[test]
fn configuration_files_must_be_private_regular_and_small() {
    let facts = |is_file: bool, owner: u32, mode: u32, len: u64| ConfigFileFacts { is_file, owner, mode, len };
    assert!(config_file_verdict("/c", &facts(true, 501, 0o100600, 10), 501).is_ok());
    assert_eq!(
        config_file_verdict("/c", &facts(false, 501, 0o600, 10), 501).unwrap_err(),
        "configuration is not a regular file: /c"
    );
    assert_eq!(
        config_file_verdict("/c", &facts(true, 0, 0o600, 10), 501).unwrap_err(),
        "configuration is not owned by the current user: /c"
    );
    assert_eq!(
        config_file_verdict("/c", &facts(true, 501, 0o644, 10), 501).unwrap_err(),
        "configuration permissions are too broad: /c; run `chmod 600 /c`"
    );
    assert_eq!(
        config_file_verdict("/c", &facts(true, 501, 0o600, 2_000_000), 501).unwrap_err(),
        "configuration is too large: /c exceeds 1048576 bytes"
    );
    assert!(config_directory_verdict("/d", false, true, 501, 0o40700, 501).is_ok());
    assert_eq!(
        config_directory_verdict("/d", true, true, 501, 0o700, 501).unwrap_err(),
        "configuration directory must be a real directory: /d"
    );
    assert_eq!(
        config_directory_verdict("/d", false, true, 501, 0o750, 501).unwrap_err(),
        "configuration directory permissions are too broad: /d; run `chmod 700 /d`"
    );
}
