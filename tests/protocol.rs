use reasoning_translation::protocol::{
    check_response, decode_response, encode_request, preview_bytes, OutputStream,
    TranslationError, TranslationFormat, TranslationKind, MAX_TRANSLATION_STDERR_BYTES,
    MAX_TRANSLATION_STDOUT_BYTES, TRANSLATION_SCHEMA_VERSION,
};

#[test]
fn wire_values_and_formats() {
    assert_eq!(TranslationKind::AgentReasoningTitle.as_wire_value(), "agent_reasoning_title");
    assert_eq!(TranslationKind::AgentReasoningBody.as_wire_value(), "agent_reasoning_body");
    assert_eq!(TranslationKind::AgentReasoningTitle.format(), TranslationFormat::Plain);
    assert_eq!(TranslationKind::AgentReasoningBody.format(), TranslationFormat::Markdown);
    assert_eq!(TranslationFormat::Plain.as_wire_value(), "plain");
    assert_eq!(TranslationFormat::Markdown.as_wire_value(), "markdown");
    assert_eq!(OutputStream::Stdout.as_str(), "stdout");
    assert_eq!(OutputStream::Stderr.limit_bytes(), 1024 * 1024);
    assert_eq!(MAX_TRANSLATION_STDOUT_BYTES, 4 * 1024 * 1024);
    assert_eq!(MAX_TRANSLATION_STDERR_BYTES, 1024 * 1024);
    assert_eq!(TRANSLATION_SCHEMA_VERSION, 1);
}

#[test]
fn request_line_has_fixed_fields_and_escaped_text() {
    let line = encode_request(TranslationKind::AgentReasoningBody, "say \"hi\"\n").unwrap();
    assert_eq!(
        line,
        "{\"schema_version\":1,\"kind\":\"agent_reasoning_body\",\"format\":\"markdown\",\"source_language\":\"en\",\"target_language\":\"zh-CN\",\"text\":\"say \\\"hi\\\"\\n\"}"
    );
    let title = encode_request(TranslationKind::AgentReasoningTitle, "Thinking").unwrap();
    assert_eq!(
        title,
        "{\"schema_version\":1,\"kind\":\"agent_reasoning_title\",\"format\":\"plain\",\"source_language\":\"en\",\"target_language\":\"zh-CN\",\"text\":\"Thinking\"}"
    );
}

#[test]
fn preview_trims_and_cuts_at_300_characters() {
    assert_eq!(preview_bytes(b"  boom\n"), "boom");
    assert_eq!(preview_bytes(b""), "");
    let long = "x".repeat(301);
    let p = preview_bytes(long.as_bytes());
    assert_eq!(p.chars().count(), 301);
    assert!(p.ends_with('…'));
    assert_eq!(&p[..300], &long[..300]);
    let exact = "y".repeat(300);
    assert_eq!(preview_bytes(exact.as_bytes()), exact);
    assert_eq!(preview_bytes(&[0x66, 0xff, 0x6f]), "f\u{fffd}o");
}

#[test]
fn response_with_matching_schema_is_trimmed_text() {
    let r = check_response(Some(1), Some("  你好 \n".to_string()), b"");
    assert_eq!(r.unwrap(), "你好");
}

#[test]
fn response_errors_by_kind() {
    assert!(matches!(
        check_response(Some(2), Some("x".to_string()), b""),
        Err(TranslationError::SchemaVersionMismatch { expected: 1, actual: 2 })
    ));
    assert!(matches!(
        check_response(Some(1), Some("   ".to_string()), b""),
        Err(TranslationError::EmptyTranslation)
    ));
    match check_response(None, Some("x".to_string()), b" not json ") {
        Err(TranslationError::InvalidJson { stdout_preview }) => assert_eq!(stdout_preview, "not json"),
        other => panic!("unexpected {other:?}"),
    }
    assert!(matches!(
        check_response(Some(u64::from(u32::MAX) + 1), Some("x".to_string()), b""),
        Err(TranslationError::InvalidJson { .. })
    ));
}

#[test]
fn decode_reads_json_stdout() {
    let ok = decode_response("{\"schema_version\":1,\"text\":\"你好\"}\n".as_bytes());
    assert_eq!(ok.unwrap(), "你好");
    let extra = decode_response(b"{\"text\":\" translated \",\"schema_version\":1,\"x\":true}");
    assert_eq!(extra.unwrap(), "translated");
    assert!(matches!(
        decode_response(b"{\"schema_version\":3,\"text\":\"a\"}"),
        Err(TranslationError::SchemaVersionMismatch { expected: 1, actual: 3 })
    ));
    assert!(matches!(
        decode_response(b"{\"schema_version\":1,\"text\":\"\"}"),
        Err(TranslationError::EmptyTranslation)
    ));
    match decode_response(b"hello") {
        Err(TranslationError::InvalidJson { stdout_preview }) => assert_eq!(stdout_preview, "hello"),
        other => panic!("unexpected {other:?}"),
    }
    assert!(matches!(
        decode_response(b"{\"schema_version\":\"1\",\"text\":\"a\"}"),
        Err(TranslationError::InvalidJson { .. })
    ));
    assert!(matches!(
        decode_response(b"{\"schema_version\":1,\"text\":5}"),
        Err(TranslationError::InvalidJson { .. })
    ));
}

#[test]
fn request_text_escapes_control_characters() {
    let line = encode_request(TranslationKind::AgentReasoningTitle, "a\u{1}\u{8}\u{c}\r\t\\/\u{1f}é").unwrap();
    assert!(line.ends_with("\"text\":\"a\\u0001\\b\\f\\r\\t\\\\/\\u001fé\"}"));
}

#[test]
fn empty_stream_has_empty_preview() {
    assert_eq!(preview_bytes(b"   \n\t"), "");
}
