//! The settings of the service.

use habit_tracker::settings::{
    load_config, log_level, parse_port, Api, ConfigError, LogLevel, Redis, Settings,
};

fn table(entries: &[(&str, &str)]) -> Vec<(String, String)> {
    entries.iter().map(|(key, value)| (key.to_string(), value.to_string())).collect()
}

#[test]
fn parse_port_reads_decimal_numbers() {
    assert_eq!(parse_port("0"), Some(0));
    assert_eq!(parse_port("80"), Some(80));
    assert_eq!(parse_port("6379"), Some(6379));
    assert_eq!(parse_port("65535"), Some(65535));
    assert_eq!(parse_port("+8080"), Some(8080));
    assert_eq!(parse_port("0008080"), Some(8080));
    assert_eq!(parse_port("+000000000000000000000001"), Some(1));
}

#[test]
fn parse_port_turns_down_what_is_no_port() {
    assert_eq!(parse_port(""), None);
    assert_eq!(parse_port("+"), None);
    assert_eq!(parse_port("65536"), None);
    assert_eq!(parse_port("99999999999999999999999999"), None);
    assert_eq!(parse_port("-1"), None);
    assert_eq!(parse_port("++1"), None);
    assert_eq!(parse_port("1+"), None);
    assert_eq!(parse_port(" 80"), None);
    assert_eq!(parse_port("80 "), None);
    assert_eq!(parse_port("8_0"), None);
    assert_eq!(parse_port("8o"), None);
    assert_eq!(parse_port("0x50"), None);
    assert_eq!(parse_port("65536x"), None);
    assert_eq!(parse_port("\u{0661}\u{0662}"), None);
}

#[test]
fn parse_port_reads_as_the_standard_library_does() {
    let texts = [
        "", "+", "-", "0", "+0", "-0", "7", "42", "+42", "65535", "65536", "+65535", "065535",
        "655350", "99999", "100000", "1e3", "12 ", " 12", "1 2", "١٢", "+-1", "12a", "a12", "6553５",
    ];
    for text in texts {
        assert_eq!(parse_port(text), text.parse::<u16>().ok(), "for {:?}", text);
    }
    for port in [0u16, 1, 9, 10, 99, 100, 1024, 6379, 8080, 65534, 65535] {
        assert_eq!(parse_port(&port.to_string()), Some(port));
    }
}

#[test]
fn load_config_reads_both_tables() {
    let api = table(&[("loglevel", "debug"), ("host", "0.0.0.0"), ("port", "8080")]);
    let redis = table(&[("host", "127.0.0.1"), ("port", "6379"), ("loglevel", "warn")]);
    assert_eq!(
        load_config(&api, &redis),
        Ok(Settings {
            api: Api { host: "0.0.0.0".to_string(), port: 8080, loglevel: "debug".to_string() },
            redis: Redis { host: "127.0.0.1".to_string(), port: 6379, loglevel: "warn".to_string() },
        })
    );
}

#[test]
fn load_config_ignores_other_keys_and_takes_the_first_of_two() {
    let api = table(&[("workers", "4"), ("host", "a"), ("port", "1"), ("host", "b"), ("loglevel", "")]);
    let redis = table(&[("port", "2"), ("loglevel", "x"), ("host", ""), ("db", "0")]);
    assert_eq!(
        load_config(&api, &redis),
        Ok(Settings {
            api: Api { host: "a".to_string(), port: 1, loglevel: String::new() },
            redis: Redis { host: String::new(), port: 2, loglevel: "x".to_string() },
        })
    );
}

#[test]
fn load_config_reports_what_is_missing_or_wrong() {
    let good = table(&[("host", "h"), ("port", "1"), ("loglevel", "info")]);
    assert_eq!(load_config(&table(&[]), &good), Err(ConfigError::MissingKey));
    assert_eq!(load_config(&good, &table(&[])), Err(ConfigError::MissingKey));
    let no_host = table(&[("port", "1"), ("loglevel", "info")]);
    let no_port = table(&[("host", "h"), ("loglevel", "info")]);
    let no_level = table(&[("host", "h"), ("port", "1")]);
    let bad_port = table(&[("host", "h"), ("port", "http"), ("loglevel", "info")]);
    let big_port = table(&[("host", "h"), ("port", "65536"), ("loglevel", "info")]);
    assert_eq!(load_config(&no_host, &good), Err(ConfigError::MissingKey));
    assert_eq!(load_config(&no_port, &good), Err(ConfigError::MissingKey));
    assert_eq!(load_config(&no_level, &good), Err(ConfigError::MissingKey));
    assert_eq!(load_config(&good, &no_host), Err(ConfigError::MissingKey));
    assert_eq!(load_config(&good, &no_level), Err(ConfigError::MissingKey));
    assert_eq!(load_config(&bad_port, &good), Err(ConfigError::InvalidPort));
    assert_eq!(load_config(&good, &big_port), Err(ConfigError::InvalidPort));
}

#[test]
fn load_config_reports_the_first_fault_in_reading_order() {
    let bad_port_no_level = table(&[("host", "h"), ("port", "x")]);
    let no_host_bad_port = table(&[("port", "x"), ("loglevel", "info")]);
    let good = table(&[("host", "h"), ("port", "1"), ("loglevel", "info")]);
    assert_eq!(load_config(&bad_port_no_level, &good), Err(ConfigError::InvalidPort));
    assert_eq!(load_config(&no_host_bad_port, &good), Err(ConfigError::MissingKey));
    assert_eq!(load_config(&bad_port_no_level, &no_host_bad_port), Err(ConfigError::InvalidPort));
    assert_eq!(load_config(&no_host_bad_port, &bad_port_no_level), Err(ConfigError::MissingKey));
}

#[test]
fn log_level_knows_five_names_and_falls_back_to_info() {
    assert_eq!(log_level(&"error".to_string()), LogLevel::Error);
    assert_eq!(log_level(&"warn".to_string()), LogLevel::Warn);
    assert_eq!(log_level(&"info".to_string()), LogLevel::Info);
    assert_eq!(log_level(&"debug".to_string()), LogLevel::Debug);
    assert_eq!(log_level(&"trace".to_string()), LogLevel::Trace);
    assert_eq!(log_level(&"".to_string()), LogLevel::Info);
    assert_eq!(log_level(&"ERROR".to_string()), LogLevel::Info);
    assert_eq!(log_level(&"warning".to_string()), LogLevel::Info);
    assert_eq!(log_level(&" debug".to_string()), LogLevel::Info);
    assert_eq!(log_level(&"off".to_string()), LogLevel::Info);
}
