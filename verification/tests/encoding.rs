use redis_logger::DefaultPubSubEncoder;
use redis_logger::DefaultStreamEncoder;
use redis_logger::DummyPubSubEncoder;
use redis_logger::DummyStreamEncoder;
use redis_logger::Level;
use redis_logger::LogRecord;
use redis_logger::PubSubEncoder;
use redis_logger::StreamEncoder;

#[test]
fn test_default_pubsub_encoder_encode() {
    let encoder = DefaultPubSubEncoder::new();
    let record = LogRecord::new(
        Level::Info,
        "Test message".to_string(),
        "my_target".to_string(),
        Some("my_module".to_string()),
        Some("my_file.rs".to_string()),
        Some(42),
    );

    let expected = r#"{"level":"INFO","args":"Test message","target":"my_target","module_path":"my_module","file":"my_file.rs","line":42}"#;
    let expected_bytes = expected.as_bytes().to_vec();
    assert_eq!(encoder.encode(&record), expected_bytes);
}

#[test]
fn test_default_stream_encoder_encode() {
    let encoder = DefaultStreamEncoder::new();
    let record = LogRecord::new(
        Level::Error,
        "Error message".to_string(),
        "my_target".to_string(),
        None,
        Some("my_file.rs".to_string()),
        None,
    );

    let expected = vec![
        ("args".to_owned(), b"Error message".to_vec()),
        ("file".to_owned(), b"my_file.rs".to_vec()),
        ("level".to_owned(), b"ERROR".to_vec()),
        ("line".to_owned(), b"".to_vec()),
        ("module_path".to_owned(), b"".to_vec()),
        ("target".to_owned(), b"my_target".to_vec()),
    ];

    assert_eq!(encoder.encode(&record), expected);
}

#[test]
fn pubsub_encoding_escapes_quotes_and_backslashes() {
    let encoder = DefaultPubSubEncoder::new();
    let record = LogRecord::new(
        Level::Warn,
        "a \"quoted\" \\ backslash".to_string(),
        "t".to_string(),
        None,
        None,
        None,
    );

    let expected = "{\"level\":\"WARN\",\"args\":\"a \\\"quoted\\\" \\\\ backslash\",\"target\":\"t\",\"module_path\":null,\"file\":null,\"line\":null}";
    assert_eq!(encoder.encode(&record), expected.as_bytes().to_vec());
}

#[test]
fn pubsub_encoding_renders_absent_fields_as_null() {
    let encoder = DefaultPubSubEncoder::new();
    let record = LogRecord::new(
        Level::Debug,
        "m".to_string(),
        "t".to_string(),
        None,
        None,
        None,
    );

    let expected = r#"{"level":"DEBUG","args":"m","target":"t","module_path":null,"file":null,"line":null}"#;
    assert_eq!(encoder.encode(&record), expected.as_bytes().to_vec());
}

#[test]
fn pubsub_encoding_renders_the_largest_line_number() {
    let encoder = DefaultPubSubEncoder::new();
    let record = LogRecord::new(
        Level::Trace,
        "m".to_string(),
        "t".to_string(),
        None,
        None,
        Some(u32::MAX),
    );

    let expected = r#"{"level":"TRACE","args":"m","target":"t","module_path":null,"file":null,"line":4294967295}"#;
    assert_eq!(encoder.encode(&record), expected.as_bytes().to_vec());
}

#[test]
fn stream_encoding_keeps_line_and_module_keys_with_empty_values() {
    let encoder = DefaultStreamEncoder::new();
    let record = LogRecord::new(
        Level::Info,
        "m".to_string(),
        "t".to_string(),
        Some("the_module".to_string()),
        None,
        Some(7),
    );

    let expected = vec![
        ("args".to_owned(), b"m".to_vec()),
        ("file".to_owned(), b"".to_vec()),
        ("level".to_owned(), b"INFO".to_vec()),
        ("line".to_owned(), b"".to_vec()),
        ("module_path".to_owned(), b"the_module".to_vec()),
        ("target".to_owned(), b"t".to_vec()),
    ];
    assert_eq!(encoder.encode(&record), expected);
}

#[test]
fn decimal_rendering_is_exact() {
    assert_eq!(redis_logger::dec_string(0), "0");
    assert_eq!(redis_logger::dec_string(7), "7");
    assert_eq!(redis_logger::dec_string(10), "10");
    assert_eq!(redis_logger::dec_string(305), "305");
    assert_eq!(redis_logger::dec_string(u32::MAX), "4294967295");
}

#[test]
fn level_names_are_the_upper_case_scheme() {
    assert_eq!(redis_logger::level_str(Level::Error), "ERROR");
    assert_eq!(redis_logger::level_str(Level::Warn), "WARN");
    assert_eq!(redis_logger::level_str(Level::Info), "INFO");
    assert_eq!(redis_logger::level_str(Level::Debug), "DEBUG");
    assert_eq!(redis_logger::level_str(Level::Trace), "TRACE");
}

#[test]
fn dummy_encoders_produce_nothing() {
    let record = LogRecord::new(Level::Info, "m".to_string(), "t".to_string(), None, None, None);
    assert_eq!(DummyPubSubEncoder {}.encode(&record), Vec::<u8>::new());
    assert_eq!(
        DummyStreamEncoder {}.encode(&record),
        Vec::<(String, Vec<u8>)>::new()
    );
}
