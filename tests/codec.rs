use lspower::codec::{encode_frame, number_of_digits, HeaderLine, HeaderScan, LanguageServerCodec, ParseError};
use serde_json::Value;

#[test]
fn encode_and_decode() {
    let decoded = r#"{"jsonrpc":"2.0","method":"exit"}"#.to_string();
    let encoded = format!("Content-Length: {}\r\n\r\n{}", decoded.len(), decoded);

    let mut codec = LanguageServerCodec::new();
    let mut buffer = Vec::new();
    let item: Value = serde_json::from_str(&decoded).unwrap();
    codec.encode(&item, &mut buffer).unwrap();
    assert_eq!(buffer, encoded.as_bytes().to_vec());

    let mut buffer = encoded.as_bytes().to_vec();
    let message = codec.decode(&mut buffer).unwrap();
    let decoded: Value = serde_json::from_str(&decoded).unwrap();
    assert_eq!(message, Some(decoded));
    assert!(buffer.is_empty());
}

#[test]
fn decodes_optional_content_type() {
    let decoded = r#"{"jsonrpc":"2.0","method":"exit"}"#.to_string();
    let content_len = format!("Content-Length: {}", decoded.len());
    let content_type =
        "Content-Type: application/vscode-jsonrpc; charset=utf-8; foo=\"bar\\nbaz\\\"qux\\\"\"".to_string();
    let encoded = format!("{}\r\n{}\r\n\r\n{}", content_len, content_type, decoded);

    let mut codec = LanguageServerCodec::new();
    let mut buffer = encoded.as_bytes().to_vec();
    let message = codec.decode(&mut buffer).unwrap();
    let decoded: Value = serde_json::from_str(&decoded).unwrap();
    assert_eq!(message, Some(decoded));
}

#[test]
fn recovers_from_parse_error() {
    let decoded = r#"{"jsonrpc":"2.0","method":"exit"}"#.to_string();
    let encoded = format!("Content-Length: {}\r\n\r\n{}", decoded.len(), decoded);
    let mixed = format!("1234567890abcdefgh{}", encoded);

    let mut codec = LanguageServerCodec::new();
    let mut buffer = mixed.as_bytes().to_vec();

    match codec.decode(&mut buffer) {
        Err(ParseError::MissingHeader) => {},
        other => panic!("expected `Err(ParseError::MissingHeader)`, got {:?}", other),
    }

    let message = codec.decode(&mut buffer).unwrap();
    let decoded: Value = serde_json::from_str(&decoded).unwrap();
    assert_eq!(message, Some(decoded));
}

#[test]
fn garbage_recovery_scenario() {
    let input = "1234567890abcdefghContent-Length: 33\r\n\r\n{\"jsonrpc\":\"2.0\",\"method\":\"exit\"}";
    let mut codec = LanguageServerCodec::new();
    let mut buffer = input.as_bytes().to_vec();
    assert!(matches!(codec.decode(&mut buffer), Err(ParseError::MissingHeader)));
    let message = codec.decode(&mut buffer).unwrap().unwrap();
    assert_eq!(message["method"], Value::String("exit".to_string()));
    assert!(buffer.is_empty());
}

#[test]
fn partial_input_waits() {
    let mut codec = LanguageServerCodec::new();
    let mut buffer = b"Content-Length: 33\r\n".to_vec();
    assert!(matches!(codec.decode(&mut buffer), Ok(None)));
    let mut buffer = b"Content-Length: 33\r\n\r\n{\"jsonrpc\"".to_vec();
    assert!(matches!(codec.decode(&mut buffer), Ok(None)));
    buffer.extend_from_slice(b":\"2.0\",\"method\":\"exit\"}");
    let message = codec.decode(&mut buffer).unwrap().unwrap();
    assert_eq!(message["jsonrpc"], Value::String("2.0".to_string()));
}

#[test]
fn two_messages_in_one_buffer() {
    let body = r#"{"a":1}"#;
    let mut buffer = Vec::new();
    encode_frame(body.as_bytes(), &mut buffer);
    encode_frame(body.as_bytes(), &mut buffer);
    let mut codec = LanguageServerCodec::new();
    let first = codec.decode(&mut buffer).unwrap().unwrap();
    let second = codec.decode(&mut buffer).unwrap().unwrap();
    assert_eq!(first, second);
    assert!(buffer.is_empty());
}

#[test]
fn invalid_length_is_reported() {
    let mut codec = LanguageServerCodec::new();
    let mut buffer = b"Content-Length: abc\r\n\r\n{}".to_vec();
    assert!(matches!(codec.decode(&mut buffer), Err(ParseError::InvalidLength)));
}

#[test]
fn plus_sign_length_is_read() {
    let mut codec = LanguageServerCodec::new();
    let mut buffer = b"Content-Length: +2\r\n\r\n{}".to_vec();
    let message = codec.decode(&mut buffer).unwrap().unwrap();
    assert!(message.is_object());
}

#[test]
fn bad_body_is_reported_and_skipped() {
    let mut codec = LanguageServerCodec::new();
    let mut buffer = Vec::new();
    encode_frame(b"{nope", &mut buffer);
    encode_frame(b"[]", &mut buffer);
    assert!(matches!(codec.decode(&mut buffer), Err(ParseError::Body(_))));
    let message = codec.decode(&mut buffer).unwrap().unwrap();
    assert!(message.is_array());
}

#[test]
fn non_utf8_body_is_reported() {
    let mut codec = LanguageServerCodec::new();
    let mut buffer = Vec::new();
    encode_frame(&[0xff, 0xfe], &mut buffer);
    assert!(matches!(codec.decode(&mut buffer), Err(ParseError::Utf8(_))));
}

#[test]
fn malformed_headers_without_length_are_reported() {
    let mut codec = LanguageServerCodec::new();
    let mut buffer = b"bad header\r\n\r\n".to_vec();
    assert!(matches!(codec.decode(&mut buffer), Err(ParseError::Httparse(_))));
}

#[test]
fn frame_layout() {
    let mut buffer = b"x".to_vec();
    encode_frame(b"[1]", &mut buffer);
    assert_eq!(buffer, b"xContent-Length: 3\r\n\r\n[1]".to_vec());
    let mut empty = Vec::new();
    encode_frame(b"", &mut empty);
    assert_eq!(empty, b"Content-Length: 0\r\n\r\n".to_vec());
}

#[test]
fn digit_counts() {
    assert_eq!(number_of_digits(0), 0);
    assert_eq!(number_of_digits(9), 1);
    assert_eq!(number_of_digits(10), 2);
    assert_eq!(number_of_digits(usize::MAX), 20);
}

#[test]
fn decode_with_given_header_scan() {
    let mut codec = LanguageServerCodec::new();
    let mut buffer = b"HEADERS[1,2]rest".to_vec();
    let scan = HeaderScan::Complete(
        7,
        vec![HeaderLine { name: b"Content-Length".to_vec(), value: b"5".to_vec() }],
    );
    let message = codec.decode_scanned(&mut buffer, scan).unwrap().unwrap();
    assert_eq!(message, serde_json::from_str::<Value>("[1,2]").unwrap());
    assert_eq!(buffer, b"rest".to_vec());

    let mut codec = LanguageServerCodec::new();
    let mut buffer = b"xyz".to_vec();
    assert!(matches!(codec.decode_scanned(&mut buffer, HeaderScan::Partial), Ok(None)));
    let scan = HeaderScan::Invalid("invalid header name".to_string());
    match codec.decode_scanned(&mut buffer, scan) {
        Err(ParseError::Httparse(text)) => assert_eq!(text, "invalid header name"),
        other => panic!("unexpected {:?}", other),
    }
    assert_eq!(buffer, b"xyz".to_vec());
}

#[test]
fn encode_writes_exact_frame() {
    let item: Value = serde_json::from_str(r#"{"jsonrpc":"2.0","method":"exit"}"#).unwrap();
    let mut codec = LanguageServerCodec::new();
    let mut buffer = b"prefix".to_vec();
    assert!(codec.encode(&item, &mut buffer).is_ok());
    assert_eq!(buffer, b"prefixContent-Length: 33\r\n\r\n{\"jsonrpc\":\"2.0\",\"method\":\"exit\"}".to_vec());
}

#[test]
fn skip_gets_past_rejected_input() {
    let mut codec = LanguageServerCodec::new();
    let mut buffer = Vec::new();
    encode_frame(&[0xff, 0xfe], &mut buffer);
    encode_frame(b"[]", &mut buffer);
    assert!(matches!(codec.decode(&mut buffer), Err(ParseError::Utf8(_))));
    codec.skip(&mut buffer);
    assert!(codec.decode(&mut buffer).unwrap().unwrap().is_array());

    let mut codec = LanguageServerCodec::new();
    let mut buffer = b"X: y\r\n\r\nabc".to_vec();
    assert!(matches!(codec.decode(&mut buffer), Err(ParseError::MissingHeader)));
    codec.skip(&mut buffer);
    assert_eq!(buffer, b": y\r\n\r\nabc".to_vec());
}
