use jina_reader::{envelope_text_bytes, parse_envelope, raw_fetch_text, sync_fetch_result, task_outcome};

#[test]
fn raw_text_is_the_body_unmodified() {
    let text = raw_fetch_text(b"hello world".to_vec()).unwrap();
    assert_eq!(text, "hello world");
}

#[test]
fn raw_text_keeps_multibyte_characters() {
    let text = raw_fetch_text(vec![0x63, 0x61, 0x66, 0xC3, 0xA9]).unwrap();
    assert_eq!(text, "caf\u{e9}");
}

#[test]
fn raw_text_rejects_invalid_utf8() {
    let err = raw_fetch_text(vec![0xFF, 0xFE]).unwrap_err();
    assert!(err.starts_with("bytes should be valid utf8: "));
}

#[test]
fn sync_fetch_reports_transport_failure() {
    let err = sync_fetch_result(Err("connection refused".to_string())).unwrap_err();
    assert_eq!(err, "HTTP request failed: connection refused");
}

#[test]
fn sync_fetch_passes_a_plain_body_through() {
    let text = sync_fetch_result(Ok(b"plain text".to_vec())).unwrap();
    assert_eq!(text, "plain text");
}

#[test]
fn envelope_yields_the_text_field() {
    let body = b"{\"text\":\"hello\"}".to_vec();
    assert_eq!(parse_envelope(&body).unwrap(), "hello");
}

#[test]
fn envelope_rejects_another_key() {
    let body = b"{\"not_text\":\"x\"}".to_vec();
    let err = parse_envelope(&body).unwrap_err();
    assert!(err.starts_with("Failed to parse response: "));
}

#[test]
fn envelope_allows_whitespace_between_tokens() {
    let body = b" \t{\r\n \"text\" :\t\"a b\" \n} ".to_vec();
    assert_eq!(parse_envelope(&body).unwrap(), "a b");
}

#[test]
fn envelope_decodes_simple_escapes() {
    let body = b"{\"text\":\"a\\nb\\\"c\\\\d\\/e\\tf\"}".to_vec();
    assert_eq!(parse_envelope(&body).unwrap(), "a\nb\"c\\d/e\tf");
}

#[test]
fn envelope_decodes_unicode_escapes() {
    let body = b"{\"text\":\"\\u0041\\u00e9\\u20aC\"}".to_vec();
    assert_eq!(parse_envelope(&body).unwrap(), "A\u{e9}\u{20ac}");
}

#[test]
fn envelope_decodes_surrogate_pairs() {
    let body = b"{\"text\":\"\\uD83D\\uDE00\"}".to_vec();
    assert_eq!(parse_envelope(&body).unwrap(), "\u{1F600}");
}

#[test]
fn envelope_rejects_a_lone_surrogate() {
    let body = b"{\"text\":\"\\uD83D\"}".to_vec();
    assert!(parse_envelope(&body).is_err());
}

#[test]
fn envelope_rejects_an_unknown_escape() {
    let body = b"{\"text\":\"\\x\"}".to_vec();
    assert!(parse_envelope(&body).is_err());
}

#[test]
fn envelope_rejects_a_nonstring_value() {
    let body = b"{\"text\":1}".to_vec();
    assert!(parse_envelope(&body).is_err());
}

#[test]
fn envelope_rejects_other_shapes() {
    assert!(parse_envelope(&b"".to_vec()).is_err());
    assert!(parse_envelope(&b"[]".to_vec()).is_err());
    assert!(parse_envelope(&b"\"text\"".to_vec()).is_err());
    assert!(parse_envelope(&b"{}".to_vec()).is_err());
    assert!(parse_envelope(&b"{\"text\":\"a\"".to_vec()).is_err());
}

#[test]
fn envelope_rejects_trailing_content() {
    let body = b"{\"text\":\"a\"}x".to_vec();
    assert!(parse_envelope(&body).is_err());
}

#[test]
fn envelope_rejects_a_second_member() {
    let body = b"{\"text\":\"a\",\"more\":\"b\"}".to_vec();
    assert!(parse_envelope(&body).is_err());
}

#[test]
fn envelope_rejects_a_raw_control_byte() {
    let body = b"{\"text\":\"a\nb\"}".to_vec();
    assert!(parse_envelope(&body).is_err());
}

#[test]
fn envelope_accepts_an_escaped_key() {
    let body = b"{\"\\u0074ext\":\"ok\"}".to_vec();
    assert_eq!(parse_envelope(&body).unwrap(), "ok");
}

#[test]
fn envelope_rejects_invalid_utf8_in_the_value() {
    let mut body = b"{\"text\":\"a".to_vec();
    body.push(0xFF);
    body.extend_from_slice(b"\"}");
    let err = parse_envelope(&body).unwrap_err();
    assert!(err.starts_with("Failed to parse response: "));
}

#[test]
fn envelope_bytes_replace_escapes() {
    let body = b"{\"text\":\"\\u00e9\"}".to_vec();
    let bytes = envelope_text_bytes(&body).unwrap();
    assert_eq!(bytes, vec![0xC3, 0xA9]);
}

#[test]
fn task_reports_transport_failure() {
    let err = task_outcome(Err("boom".to_string())).unwrap_err();
    assert_eq!(err, "Request failed: boom");
}

#[test]
fn task_extracts_the_envelope_text() {
    let text = task_outcome(Ok(b"{\"text\":\"hello\"}".to_vec())).unwrap();
    assert_eq!(text, "hello");
}

#[test]
fn task_reports_a_parse_failure() {
    let err = task_outcome(Ok(b"not json".to_vec())).unwrap_err();
    assert!(err.starts_with("Failed to parse response: "));
}

#[test]
fn slot_keeps_the_first_outcome() {
    let mut slot = jina_reader::ResultSlot::empty();
    assert!(slot.peek().is_none());
    slot.fulfill(Ok("first".to_string()));
    assert_eq!(slot.peek().clone().unwrap().unwrap(), "first");
    slot.fulfill(Err("second".to_string()));
    assert_eq!(slot.peek().clone().unwrap().unwrap(), "first");
}

#[test]
fn raw_text_of_an_empty_body_is_empty() {
    assert_eq!(raw_fetch_text(Vec::new()).unwrap(), "");
}

#[test]
fn envelope_accepts_an_empty_text_value() {
    let body = b"{\"text\":\"\"}".to_vec();
    assert_eq!(parse_envelope(&body).unwrap(), "");
}
