use smolkv::feed::parse_frame;
use smolkv::FeedDecoder;

#[test]
fn data_frame_decodes() {
    let line = b"data: {\"operation\":\"put\",\"key\":\"x\",\"value\":1}";
    let e = parse_frame(line).unwrap();
    assert_eq!(e.operation, "put");
    assert_eq!(e.key, "x");
    assert_eq!(e.value, serde_json::Value::from(1u64));
    assert_eq!(e.server_time, None);
}

#[test]
fn frame_with_server_time() {
    let line = b"data: {\"operation\":\"del\",\"key\":\"k\",\"value\":null,\"server_time\":7}";
    let e = parse_frame(line).unwrap();
    assert_eq!(e.operation, "del");
    assert_eq!(e.server_time, Some(7));
}

#[test]
fn line_without_prefix_is_skipped() {
    assert!(parse_frame(b"event: {\"operation\":\"put\"}").is_none());
    assert!(parse_frame(b"").is_none());
    assert!(parse_frame(b"data:{\"operation\":\"put\",\"key\":\"x\",\"value\":1}").is_none());
}

#[test]
fn invalid_json_after_prefix_is_skipped() {
    assert!(parse_frame(b"data: {oops").is_none());
    assert!(parse_frame(b"data: ").is_none());
}

#[test]
fn missing_fields_are_skipped() {
    assert!(parse_frame(b"data: {\"key\":\"x\",\"value\":1}").is_none());
    assert!(parse_frame(b"data: {\"operation\":\"put\",\"value\":1}").is_none());
    assert!(parse_frame(b"data: {\"operation\":\"put\",\"key\":\"x\"}").is_none());
}

#[test]
fn carriage_return_is_not_part_of_the_frame() {
    let e = parse_frame(b"data: {\"operation\":\"put\",\"key\":\"x\",\"value\":1}\r").unwrap();
    assert_eq!(e.key, "x");
}

#[test]
fn decoder_yields_one_event_per_complete_line() {
    let mut d = FeedDecoder::new();
    let events = d.push_chunk(
        b"data: {\"operation\":\"put\",\"key\":\"a\",\"value\":1}\ndata: {\"operation\":\"put\",\"key\":\"b\",\"value\":2}\n",
    );
    assert_eq!(events.len(), 2);
    assert_eq!(events[0].key, "a");
    assert_eq!(events[1].key, "b");
}

#[test]
fn decoder_keeps_partial_line_pending() {
    let mut d = FeedDecoder::new();
    let events = d.push_chunk(b"data: {\"operation\":\"put\",\"ke");
    assert!(events.is_empty());
    let events = d.push_chunk(b"y\":\"x\",\"value\":true}\n");
    assert_eq!(events.len(), 1);
    assert_eq!(events[0].key, "x");
    assert_eq!(events[0].value, serde_json::Value::Bool(true));
}

#[test]
fn malformed_line_does_not_end_the_stream() {
    let mut d = FeedDecoder::new();
    let events = d.push_chunk(b"noise\ndata: {broken\n");
    assert!(events.is_empty());
    let events = d.push_chunk(b"data: {\"operation\":\"put\",\"key\":\"x\",\"value\":1}\n");
    assert_eq!(events.len(), 1);
    assert_eq!(events[0].operation, "put");
}

#[test]
fn decoder_handles_crlf_lines() {
    let mut d = FeedDecoder::new();
    let events = d.push_chunk(b"data: {\"operation\":\"put\",\"key\":\"x\",\"value\":1}\r\n");
    assert_eq!(events.len(), 1);
    assert_eq!(events[0].key, "x");
}

#[test]
fn event_value_keeps_structure() {
    let mut d = FeedDecoder::new();
    let events =
        d.push_chunk(b"data: {\"operation\":\"put\",\"key\":\"x\",\"value\":{\"name\":\"a\"}}\n");
    assert_eq!(events.len(), 1);
    let expected: serde_json::Value = serde_json::from_str("{\"name\":\"a\"}").unwrap();
    assert_eq!(events[0].value, expected);
}
