use smart_refresh::logging::get_log_directory;
use smart_refresh::logging::log_entry_from_value;
use smart_refresh::logging::parse_log_entry;
use smart_refresh::logging::LogEntry;
use smart_refresh::logging::LoggingError;

fn entry(timestamp: &str, level: &str, message: &str) -> LogEntry {
    LogEntry {
        timestamp: timestamp.to_string(),
        level: level.to_string(),
        message: message.to_string(),
        target: None,
        filename: None,
        line_number: None,
    }
}

#[test]
fn test_parse_tracing_json_format() {
    let json_line = r#"{"timestamp":"2024-01-15T10:30:00.123456Z","level":"INFO","fields":{"message":"Test log message"},"target":"smart_refresh_daemon::logging"}"#;

    let entry = parse_log_entry(json_line).expect("Should parse valid JSON");

    assert!(entry.is_valid());
    assert_eq!(entry.level, "INFO");
    assert_eq!(entry.message, "Test log message");
    assert!(entry.timestamp.contains('T'));
    assert_eq!(entry.timestamp, "2024-01-15T10:30:00.123456Z");
    assert_eq!(entry.target, Some("smart_refresh_daemon::logging".to_string()));
    assert_eq!(entry.filename, None);
    assert_eq!(entry.line_number, None);
}

#[test]
fn test_log_entry_validation() {
    let valid_entry = LogEntry {
        timestamp: "2024-01-15T10:30:00Z".to_string(),
        level: "ERROR".to_string(),
        message: "Connection failed: timeout".to_string(),
        target: Some("smart_refresh_daemon::ipc".to_string()),
        filename: Some("ipc_server.rs".to_string()),
        line_number: Some(42),
    };

    assert!(valid_entry.is_valid());
}

#[test]
fn test_get_log_directory() {
    let result = get_log_directory(Some("/home/deck"), None);
    assert!(result.is_ok());
    let path = result.unwrap();
    assert!(path.contains(".local/share/smart-refresh"));
    assert_eq!(path, "/home/deck/.local/share/smart-refresh");
    assert_eq!(
        get_log_directory(None, Some("C:/Users/deck")).unwrap(),
        "C:/Users/deck/.local/share/smart-refresh"
    );
    assert_eq!(get_log_directory(Some("/a"), Some("/b")).unwrap(), "/a/.local/share/smart-refresh");
    let missing = get_log_directory(None, None);
    assert!(matches!(missing, Err(LoggingError::HomeDirectoryNotFound)));
    assert_eq!(
        missing.unwrap_err().message(),
        "Could not determine home directory (HOME or USERPROFILE not set)"
    );
}

#[test]
fn log_lines_with_every_level_are_valid() {
    for level in ["ERROR", "WARN", "INFO", "DEBUG", "TRACE", "info", "Warn"] {
        assert!(entry("2024-01-15T10:30:00Z", level, "m").is_valid());
    }
    assert!(!entry("2024-01-15T10:30:00Z", "FATAL", "m").is_valid());
    assert!(!entry("2024-01-15T10:30:00Z", "", "m").is_valid());
}

#[test]
fn invalid_log_lines_are_told() {
    assert!(!entry("2024-01-15T10:30:00Z", "INFO", "").is_valid());
    assert!(!entry("2024-01-01 12:00:00", "INFO", "test message").is_valid());
    assert!(!entry("2024-01-15T10:30:0", "INFO", "m").is_valid());
    assert!(entry("2024-01-15T10:30:00", "INFO", "m").is_valid());
    assert!(!entry("", "INFO", "m").is_valid());
    assert!(entry("2024-01-15T10:30:00", "INFO", "m").is_valid_timestamp());
    assert!(!entry("2024-01-15t10:30:00", "INFO", "m").is_valid_timestamp());
    assert!(entry("x", "trace", "m").is_valid_level());
}

#[test]
fn log_lines_are_read_from_either_place_of_the_message() {
    let flat = parse_log_entry(
        r#"{"timestamp":"2024-01-15T10:30:00Z","level":"WARN","message":"flat","filename":"src/main.rs","line_number":17}"#,
    )
    .unwrap();
    assert_eq!(flat.message, "flat");
    assert_eq!(flat.filename, Some("src/main.rs".to_string()));
    assert_eq!(flat.line_number, Some(17));
    assert!(flat.is_valid());

    let both = parse_log_entry(
        r#"{"timestamp":"2024-01-15T10:30:00Z","level":"WARN","message":"flat","fields":{"message":"nested"}}"#,
    )
    .unwrap();
    assert_eq!(both.message, "nested");

    let odd = parse_log_entry(
        r#"{"timestamp":5,"level":null,"fields":{"message":7},"message":"kept","target":[],"line_number":-3}"#,
    )
    .unwrap();
    assert_eq!(odd.timestamp, "");
    assert_eq!(odd.level, "");
    assert_eq!(odd.message, "kept");
    assert_eq!(odd.target, None);
    assert_eq!(odd.line_number, None);
    assert!(!odd.is_valid());

    let wide = parse_log_entry(r#"{"line_number":4294967297}"#).unwrap();
    assert_eq!(wide.line_number, Some(1));

    let array = parse_log_entry(r#"["timestamp","level"]"#).unwrap();
    assert_eq!(array.timestamp, "");
    assert!(!array.is_valid());
}

#[test]
fn text_that_is_no_json_is_refused() {
    assert!(parse_log_entry("not json").is_err());
    assert!(parse_log_entry("").is_err());
    assert!(parse_log_entry(r#"{"timestamp":"2024"} trailing"#).is_err());
}

#[test]
fn log_entry_from_a_parsed_value() {
    let value: serde_json::Value =
        serde_json::from_str(r#"{"timestamp":"2024-01-15T10:30:00Z","level":"DEBUG","fields":{"message":"hello"}}"#)
            .unwrap();
    let entry = log_entry_from_value(&value);
    assert_eq!(entry.level, "DEBUG");
    assert_eq!(entry.message, "hello");
    assert!(entry.is_valid());
}

#[test]
fn logging_errors_have_messages() {
    let e = LoggingError::AppenderCreationFailed("disk full".to_string());
    assert_eq!(e.message(), "Failed to create log file appender: disk full");
    let e = LoggingError::DirectoryCreationFailed {
        path: "/x".to_string(),
        source: std::io::Error::new(std::io::ErrorKind::Other, "denied"),
    };
    assert_eq!(e.message(), "Failed to create log directory '/x': denied");
}
