use sentry_log4rs::ConfigError;
use sentry_log4rs::ConfigValue;
use sentry_log4rs::Level;
use sentry_log4rs::LogRecord;
use sentry_log4rs::MessageEncoder;
use sentry_log4rs::SentryAppenderConfig;
use sentry_log4rs::SentryAppenderDeserializer;
use sentry_log4rs::level_from_name;

fn text(s: &str) -> ConfigValue {
    ConfigValue::Text(s.to_string())
}

fn entry(k: &str, v: ConfigValue) -> (String, ConfigValue) {
    (k.to_string(), v)
}

#[test]
fn parse_minimal_config() {
    let entries = vec![entry("dsn", text("https://key@example.invalid/42")), entry("threshold", text("error"))];
    let cfg = SentryAppenderConfig::from_entries(&entries).unwrap();
    assert_eq!(cfg.dsn, "https://key@example.invalid/42");
    assert_eq!(cfg.threshold, Level::Error);
    assert!(cfg.encoder.is_none());
}

#[test]
fn unknown_key_is_rejected() {
    let entries = vec![
        entry("dsn", text("X")),
        entry("threshold", text("error")),
        entry("foo", text("1")),
    ];
    let err = SentryAppenderConfig::from_entries(&entries).unwrap_err();
    match err {
        ConfigError::UnknownKey(k) => assert_eq!(k, "foo"),
        other => panic!("expected an unknown-key error, got {:?}", other),
    }
}

#[test]
fn duplicate_key_is_rejected() {
    let entries = vec![
        entry("dsn", text("X")),
        entry("threshold", text("error")),
        entry("dsn", text("Y")),
    ];
    let err = SentryAppenderConfig::from_entries(&entries).unwrap_err();
    match err {
        ConfigError::DuplicateKey(k) => assert_eq!(k, "dsn"),
        other => panic!("expected a duplicate-key error, got {:?}", other),
    }
}

#[test]
fn missing_dsn_is_rejected() {
    let entries = vec![entry("threshold", text("error"))];
    assert!(matches!(
        SentryAppenderConfig::from_entries(&entries),
        Err(ConfigError::MissingDsn)
    ));
}

#[test]
fn missing_threshold_is_rejected() {
    let entries = vec![entry("dsn", text("X"))];
    assert!(matches!(
        SentryAppenderConfig::from_entries(&entries),
        Err(ConfigError::MissingThreshold)
    ));
}

#[test]
fn non_text_dsn_is_rejected() {
    let entries = vec![
        entry("dsn", ConfigValue::Nested(vec![])),
        entry("threshold", text("error")),
    ];
    assert!(matches!(
        SentryAppenderConfig::from_entries(&entries),
        Err(ConfigError::InvalidDsn)
    ));
}

#[test]
fn unknown_threshold_name_is_rejected() {
    let entries = vec![entry("dsn", text("X")), entry("threshold", text("fatal"))];
    assert!(matches!(
        SentryAppenderConfig::from_entries(&entries),
        Err(ConfigError::InvalidThreshold)
    ));

    let entries = vec![
        entry("dsn", text("X")),
        entry("threshold", ConfigValue::Nested(vec![])),
    ];
    assert!(matches!(
        SentryAppenderConfig::from_entries(&entries),
        Err(ConfigError::InvalidThreshold)
    ));
}

#[test]
fn non_nested_encoder_is_rejected() {
    let entries = vec![
        entry("dsn", text("X")),
        entry("threshold", text("error")),
        entry("encoder", text("pattern")),
    ];
    assert!(matches!(
        SentryAppenderConfig::from_entries(&entries),
        Err(ConfigError::InvalidEncoder)
    ));
}

#[test]
fn encoder_kind_defaults_to_pattern() {
    let entries = vec![
        entry("dsn", text("X")),
        entry("threshold", text("error")),
        entry("encoder", ConfigValue::Nested(vec![("pattern".to_string(), "{m}".to_string())])),
    ];
    let cfg = SentryAppenderConfig::from_entries(&entries).unwrap();
    assert_eq!(cfg.encoder.unwrap().kind, "pattern");

    let entries = vec![
        entry("dsn", text("X")),
        entry("threshold", text("error")),
        entry("encoder", ConfigValue::Nested(vec![("kind".to_string(), "json".to_string())])),
    ];
    let cfg = SentryAppenderConfig::from_entries(&entries).unwrap();
    assert_eq!(cfg.encoder.unwrap().kind, "json");
}

#[test]
fn threshold_names_ignore_ascii_case() {
    assert_eq!(level_from_name("ERROR"), Some(Level::Error));
    assert_eq!(level_from_name("Warn"), Some(Level::Warn));
    assert_eq!(level_from_name("info"), Some(Level::Info));
    assert_eq!(level_from_name("dEbUg"), Some(Level::Debug));
    assert_eq!(level_from_name("trace"), Some(Level::Trace));
    assert_eq!(level_from_name("off"), None);
    assert_eq!(level_from_name("warning"), None);
    assert_eq!(level_from_name(""), None);
}

#[test]
fn parsed_config_drives_the_adapter() {
    let entries = vec![entry("dsn", text("X")), entry("threshold", text("warn"))];
    let cfg = SentryAppenderConfig::from_entries(&entries).unwrap();
    let adapter = SentryAppenderDeserializer.deserialize::<MessageEncoder>(cfg, None);
    let rec = LogRecord {
        level: Level::Info,
        message: "quiet".to_string(),
        target: "t".to_string(),
        file: None,
        line: None,
        module: None,
    };
    assert!(adapter.append(&rec).unwrap().is_none());
    let rec = LogRecord {
        level: Level::Warn,
        message: "loud".to_string(),
        target: "t".to_string(),
        file: None,
        line: None,
        module: None,
    };
    assert_eq!(adapter.append(&rec).unwrap().unwrap().message.as_deref(), Some("loud"));
}

#[test]
fn empty_document_is_rejected() {
    let entries: Vec<(String, ConfigValue)> = vec![];
    assert!(matches!(
        SentryAppenderConfig::from_entries(&entries),
        Err(ConfigError::MissingDsn)
    ));
}

#[test]
fn entry_order_does_not_matter_for_acceptance() {
    let entries = vec![entry("threshold", text("debug")), entry("dsn", text("X"))];
    let cfg = SentryAppenderConfig::from_entries(&entries).unwrap();
    assert_eq!(cfg.dsn, "X");
    assert_eq!(cfg.threshold, Level::Debug);
}
