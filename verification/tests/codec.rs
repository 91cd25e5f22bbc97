use serde_json::Value;
use signalr_client::protocol::close::Close;
use signalr_client::protocol::invoke::{CancelInvocation, Completion, Invocation, PossibleInvocation};
use signalr_client::protocol::messages::{MessageParser, RECORD_SEPARATOR};
use signalr_client::protocol::negotiate::{HandshakeRequest, HandshakeResponse, MessageType, Ping};
use signalr_client::protocol::streaming::StreamItem;

fn json(text: &str) -> Value {
    serde_json::from_str::<Value>(text).unwrap()
}

fn entity(text: &str, number: i64) -> Value {
    let mut map = serde_json::Map::new();
    map.insert("text".to_string(), Value::from(text));
    map.insert("number".to_string(), Value::from(number));
    Value::Object(map)
}

#[test]
fn record_separator_is_one_control_character() {
    assert_eq!(RECORD_SEPARATOR, "\u{1e}");
    assert_eq!(RECORD_SEPARATOR.as_bytes(), &[0x1e]);
}

#[test]
fn message_type_tags_are_one_to_eight() {
    let kinds = [
        MessageType::Invocation,
        MessageType::StreamItem,
        MessageType::Completion,
        MessageType::StreamInvocation,
        MessageType::CancelInvocation,
        MessageType::Ping,
        MessageType::Close,
        MessageType::Other,
    ];
    for (i, kind) in kinds.iter().enumerate() {
        assert_eq!(kind.tag(), i as u64 + 1);
        assert_eq!(MessageType::from_tag(i as u64 + 1), Some(*kind));
    }
    assert_eq!(MessageType::from_tag(0), None);
    assert_eq!(MessageType::from_tag(9), None);
}

#[test]
fn frame_ends_with_exactly_one_separator() {
    let mut invocation = Invocation::create_single("Echo".to_string());
    invocation.with_argument(Ok(Value::from("with \u{1e} inside"))).unwrap();
    let frame = MessageParser::to_json(&invocation.to_value());
    assert!(frame.ends_with('\u{1e}'));
    assert_eq!(frame.matches('\u{1e}').count(), 1);
    assert_eq!(
        frame,
        "{\"type\":1,\"target\":\"Echo\",\"arguments\":[\"with \\u001e inside\"]}\u{1e}"
    );
}

#[test]
fn invocation_frame_matches_wire_trace() {
    let mut invocation = Invocation::create_single("SingleEntity".to_string());
    invocation.with_invocation_id("SingleEntity_1".to_string());
    assert_eq!(
        MessageParser::to_json(&invocation.to_value()),
        "{\"type\":1,\"target\":\"SingleEntity\",\"arguments\":[],\"invocationId\":\"SingleEntity_1\"}\u{1e}"
    );
}

#[test]
fn stream_invocation_frame_matches_wire_trace() {
    let mut invocation = Invocation::create_multiple("HundredEntities".to_string());
    invocation.with_invocation_id("HundredEntities_1".to_string());
    assert_eq!(
        MessageParser::to_json(&invocation.to_value()),
        "{\"type\":4,\"target\":\"HundredEntities\",\"arguments\":[],\"invocationId\":\"HundredEntities_1\"}\u{1e}"
    );
}

#[test]
fn completion_frame_matches_wire_trace() {
    let completion = Completion::create_result("k".to_string(), entity("test", 1));
    assert_eq!(
        MessageParser::to_json(&completion.to_value()),
        "{\"type\":3,\"invocationId\":\"k\",\"result\":{\"text\":\"test\",\"number\":1}}\u{1e}"
    );
}

#[test]
fn handshake_request_frame_matches_wire_trace() {
    let request = HandshakeRequest::new("json".to_string());
    assert_eq!(
        MessageParser::to_json(&request.to_value()),
        "{\"protocol\":\"json\",\"version\":1}\u{1e}"
    );
}

#[test]
fn ping_frame_matches_wire_trace() {
    let ping = Ping::new();
    assert_eq!(Ping::from_value(&ping.to_value()), Some(Ping::new()));
    assert_eq!(ping.message_type(), MessageType::Ping);
    assert_eq!(Ping::default().message_type(), MessageType::Ping);
    assert_eq!(MessageParser::to_json(&ping.to_value()), "{\"type\":6}\u{1e}");
}

#[test]
fn invocation_round_trip() {
    let mut invocation = Invocation::create_single("PushTwoEntities".to_string());
    invocation.with_invocation_id("PushTwoEntities_7".to_string());
    invocation.with_argument(Ok(entity("a", 200))).unwrap();
    invocation.with_argument(Ok(entity("b", 300))).unwrap();
    invocation.with_streams(vec!["s1".to_string(), "s2".to_string()]);
    let frame = MessageParser::to_json(&invocation.to_value());
    let text = MessageParser::strip_record_separator(&frame);
    let value = MessageParser::parse_message(text).unwrap();
    let decoded = Invocation::from_value(&value).unwrap();
    assert_eq!(decoded.get_message_type(), MessageType::Invocation);
    assert_eq!(decoded.get_target(), "PushTwoEntities");
    assert_eq!(decoded.get_invocation_id(), Some("PushTwoEntities_7".to_string()));
    assert_eq!(decoded.argument_count(), Some(2));
    assert_eq!(decoded.argument_at(0), Some(&entity("a", 200)));
    assert_eq!(decoded.argument_at(1), Some(&entity("b", 300)));
    assert_eq!(decoded.argument_at(2), None);
    assert_eq!(decoded.to_value(), invocation.to_value());
    assert_eq!(decoded, invocation);
}

#[test]
fn completion_round_trip() {
    let completion = Completion::create_result("X_3".to_string(), entity("ab", 500));
    let value = json(MessageParser::strip_record_separator(&MessageParser::to_json(
        &completion.to_value(),
    )));
    let decoded = Completion::from_value(&value).unwrap();
    assert_eq!(decoded, completion);
    assert_eq!(decoded.get_invocation_id(), "X_3");
    assert!(decoded.is_result());
    assert!(!decoded.is_error());
    assert_eq!(decoded.unwrap_result(), entity("ab", 500));
}

#[test]
fn completion_with_error_round_trip() {
    let value = json("{\"type\":3,\"invocationId\":\"X_3\",\"error\":\"boom\"}");
    let decoded = Completion::from_value(&value).unwrap();
    assert!(decoded.is_error());
    assert!(!decoded.is_result());
    assert_eq!(decoded.to_value(), value);
    assert_eq!(decoded.unwrap_error(), "boom");
}

#[test]
fn void_completion_has_neither_result_nor_error() {
    let decoded = Completion::from_value(&json("{\"type\":3,\"invocationId\":\"X_3\"}")).unwrap();
    assert!(!decoded.is_error());
    assert!(!decoded.is_result());
    let with_null = Completion::from_value(&json(
        "{\"type\":3,\"invocationId\":\"X_3\",\"result\":null,\"error\":null}",
    ))
    .unwrap();
    assert!(!with_null.is_error());
    assert!(!with_null.is_result());
}

#[test]
fn stream_item_round_trip() {
    let item = StreamItem::new("HundredEntities_1".to_string(), entity("x", 5));
    let frame = MessageParser::to_json(&item.to_value());
    assert_eq!(
        frame,
        "{\"type\":2,\"invocationId\":\"HundredEntities_1\",\"item\":{\"text\":\"x\",\"number\":5}}\u{1e}"
    );
    let decoded = StreamItem::from_value(&json(MessageParser::strip_record_separator(&frame))).unwrap();
    assert_eq!(decoded, item);
    assert_eq!(decoded.get_invocation_id(), "HundredEntities_1");
    assert_eq!(decoded.into_item(), entity("x", 5));
}

#[test]
fn cancel_invocation_round_trip() {
    let cancel = CancelInvocation::new("S_2".to_string());
    let frame = MessageParser::to_json(&cancel.to_value());
    assert_eq!(frame, "{\"type\":5,\"invocationId\":\"S_2\"}\u{1e}");
    let decoded = CancelInvocation::from_value(&json(MessageParser::strip_record_separator(&frame))).unwrap();
    assert_eq!(decoded, cancel);
    assert_eq!(decoded.get_invocation_id(), "S_2");
}

#[test]
fn close_round_trip() {
    let close = Close::new(Some("gone".to_string()), Some(false));
    let frame = MessageParser::to_json(&close.to_value());
    assert_eq!(frame, "{\"type\":7,\"error\":\"gone\",\"allowReconnect\":false}\u{1e}");
    let decoded = Close::from_value(&json(MessageParser::strip_record_separator(&frame))).unwrap();
    assert_eq!(decoded, close);
    assert_eq!(decoded.get_error(), Some("gone".to_string()));
    assert_eq!(decoded.get_allow_reconnect(), Some(false));
    let bare = Close::from_value(&json("{\"type\":7}")).unwrap();
    assert_eq!(bare.get_error(), None);
    assert_eq!(bare.get_allow_reconnect(), None);
}

#[test]
fn handshake_round_trip() {
    let request = HandshakeRequest::new("json".to_string());
    let decoded = HandshakeRequest::from_value(&request.to_value()).unwrap();
    assert_eq!(decoded, request);
    assert!(HandshakeRequest::from_value(&json("{\"protocol\":\"json\",\"version\":256}")).is_none());
    assert!(HandshakeRequest::from_value(&json("{\"protocol\":\"json\"}")).is_none());

    let ok = HandshakeResponse::from_value(&json("{}")).unwrap();
    assert_eq!(ok.get_error(), None);
    assert_eq!(MessageParser::to_json(&ok.to_value()), "{}\u{1e}");
    let failed = HandshakeResponse::new(Some("bad protocol".to_string()));
    assert_eq!(MessageParser::to_json(&failed.to_value()), "{\"error\":\"bad protocol\"}\u{1e}");
    let decoded = HandshakeResponse::from_value(&failed.to_value()).unwrap();
    assert_eq!(decoded, failed);
    assert_eq!(decoded.get_error(), Some("bad protocol".to_string()));
    assert!(HandshakeResponse::from_value(&json("{\"error\":5}")).is_none());
    assert!(HandshakeResponse::from_value(&json("null")).is_none());
    assert!(HandshakeResponse::from_value(&json("[]")).is_none());
    assert!(HandshakeResponse::from_value(&json("\"ok\"")).is_none());
    assert_eq!(HandshakeResponse::from_value(&json("{\"error\":null}")), Some(HandshakeResponse::new(None)));
}

#[test]
fn ping_reads_the_kind_of_any_message() {
    let ping = Ping::from_value(&json("{\"type\":3,\"invocationId\":\"a\"}")).unwrap();
    assert_eq!(ping.message_type(), MessageType::Completion);
    assert!(Ping::from_value(&json("{\"type\":9}")).is_none());
    assert!(Ping::from_value(&json("{\"type\":0}")).is_none());
    assert!(Ping::from_value(&json("{\"type\":-1}")).is_none());
    assert!(Ping::from_value(&json("{\"type\":1.5}")).is_none());
    assert!(Ping::from_value(&json("{\"type\":\"1\"}")).is_none());
    assert!(Ping::from_value(&json("{}")).is_none());
    assert!(Ping::from_value(&json("[1]")).is_none());
}

#[test]
fn invocation_is_rejected_when_a_member_is_of_the_wrong_kind() {
    assert!(Invocation::from_value(&json("{\"type\":1}")).is_none());
    assert!(Invocation::from_value(&json("{\"type\":1,\"target\":5}")).is_none());
    assert!(Invocation::from_value(&json("{\"target\":\"a\"}")).is_none());
    assert!(Invocation::from_value(&json("{\"type\":1,\"target\":\"a\",\"arguments\":3}")).is_none());
    assert!(Invocation::from_value(&json("{\"type\":1,\"target\":\"a\",\"invocationId\":3}")).is_none());
    assert!(Invocation::from_value(&json("{\"type\":1,\"target\":\"a\",\"headers\":3}")).is_none());
    assert!(Invocation::from_value(&json("{\"type\":1,\"target\":\"a\",\"streamIds\":[1]}")).is_none());
    let bare = Invocation::from_value(&json(
        "{\"type\":1,\"target\":\"a\",\"arguments\":null,\"invocationId\":null,\"extra\":true}",
    ))
    .unwrap();
    assert_eq!(bare.get_target(), "a");
    assert_eq!(bare.get_invocation_id(), None);
    assert_eq!(bare.argument_count(), None);
    assert_eq!(MessageParser::to_json(&bare.to_value()), "{\"type\":1,\"target\":\"a\"}\u{1e}");
}

#[test]
fn headers_are_written_behind_the_type() {
    let value = json("{\"headers\":{\"z\":\"b\",\"a\":\"\"},\"type\":1,\"target\":\"t\"}");
    let invocation = Invocation::from_value(&value).unwrap();
    assert_eq!(
        MessageParser::to_json(&invocation.to_value()),
        "{\"type\":1,\"headers\":{\"z\":\"b\",\"a\":\"\"},\"target\":\"t\"}\u{1e}"
    );
    assert_eq!(Invocation::from_value(&invocation.to_value()), Some(invocation));
    let empty = Completion::from_value(&json("{\"type\":3,\"invocationId\":\"k\",\"headers\":{}}")).unwrap();
    assert_eq!(
        MessageParser::to_json(&empty.to_value()),
        "{\"type\":3,\"headers\":{},\"invocationId\":\"k\"}\u{1e}"
    );
}

#[test]
fn headers_must_map_names_to_strings() {
    assert!(Invocation::from_value(&json("{\"type\":1,\"target\":\"t\",\"headers\":{\"a\":1}}")).is_none());
    assert!(Invocation::from_value(&json("{\"type\":1,\"target\":\"t\",\"headers\":[\"a\"]}")).is_none());
    assert!(Completion::from_value(&json("{\"type\":3,\"invocationId\":\"k\",\"headers\":{\"a\":null}}")).is_none());
    assert!(StreamItem::from_value(&json("{\"type\":2,\"invocationId\":\"k\",\"item\":1,\"headers\":\"x\"}")).is_none());
    assert!(CancelInvocation::from_value(&json("{\"type\":5,\"invocationId\":\"k\",\"headers\":{\"a\":{}}}")).is_none());
    assert!(PossibleInvocation::from_value(&json("{\"type\":2,\"headers\":{\"a\":true}}")).is_none());
    assert!(Invocation::from_value(&json("{\"type\":1,\"target\":\"t\",\"headers\":null}")).is_some());
}

#[test]
fn possible_invocation_reads_the_routing_members() {
    let possible = PossibleInvocation::from_value(&json("{\"type\":2,\"invocationId\":\"a_1\",\"item\":1}")).unwrap();
    assert_eq!(possible.get_invocation_id(), Some("a_1".to_string()));
    assert_eq!(possible.get_target(), None);
    let other = PossibleInvocation::from_value(&json("{\"type\":1,\"target\":\"cb\"}")).unwrap();
    assert_eq!(other.get_invocation_id(), None);
    assert_eq!(other.get_target(), Some("cb".to_string()));
    assert!(PossibleInvocation::from_value(&json("{\"type\":2,\"invocationId\":7}")).is_none());
}

#[test]
fn with_argument_reports_a_failed_conversion() {
    let mut invocation = Invocation::create_single("t".to_string());
    let failure = serde_json::from_str::<Value>("{").unwrap_err();
    let detail = failure.to_string();
    let r = invocation.with_argument(Err(failure));
    assert_eq!(r, Err(format!("Serialization error: {}", detail)));
    assert_eq!(invocation.argument_count(), Some(0));
}

#[test]
fn with_streams_ignores_an_empty_list() {
    let mut invocation = Invocation::create_single("t".to_string());
    invocation.with_streams(Vec::new());
    assert_eq!(MessageParser::to_json(&invocation.to_value()), "{\"type\":1,\"target\":\"t\",\"arguments\":[]}\u{1e}");
    invocation.with_streams(vec!["1".to_string()]);
    assert_eq!(
        MessageParser::to_json(&invocation.to_value()),
        "{\"type\":1,\"target\":\"t\",\"arguments\":[],\"streamIds\":[\"1\"]}\u{1e}"
    );
}

#[test]
fn strip_record_separator_removes_all_trailing_separators() {
    assert_eq!(MessageParser::strip_record_separator("{}\u{1e}"), "{}");
    assert_eq!(MessageParser::strip_record_separator("{}\u{1e}\u{1e}"), "{}");
    assert_eq!(MessageParser::strip_record_separator("{}"), "{}");
    assert_eq!(MessageParser::strip_record_separator("a\u{1e}b"), "a\u{1e}b");
    assert_eq!(MessageParser::strip_record_separator("\u{1e}"), "");
    assert_eq!(MessageParser::strip_record_separator(""), "");
    assert_eq!(MessageParser::strip_record_separator("é\u{1e}"), "é");
}

#[test]
fn concatenated_frames_split_back_without_empty_pieces() {
    let frames: Vec<String> = (0..5)
        .map(|i| {
            let mut invocation = Invocation::create_single(format!("T{}", i));
            invocation.with_argument(Ok(Value::from(i))).unwrap();
            MessageParser::to_json(&invocation.to_value())
        })
        .collect();
    let read: String = frames.concat();
    let records = MessageParser::split_records(&read);
    assert_eq!(records.len(), 5);
    for (record, frame) in records.iter().zip(frames.iter()) {
        assert!(!record.is_empty());
        assert_eq!(record.as_str(), MessageParser::strip_record_separator(frame));
    }
}

#[test]
fn split_records_drops_empty_pieces_and_keeps_an_open_tail() {
    assert_eq!(MessageParser::split_records("A\u{1e}B\u{1e}"), vec!["A".to_string(), "B".to_string()]);
    assert_eq!(MessageParser::split_records("\u{1e}\u{1e}A\u{1e}\u{1e}B"), vec!["A".to_string(), "B".to_string()]);
    assert_eq!(MessageParser::split_records(""), Vec::<String>::new());
    assert_eq!(MessageParser::split_records("\u{1e}"), Vec::<String>::new());
}

#[test]
fn parse_message_rejects_what_is_no_json() {
    assert!(MessageParser::parse_message("{\"type\":").is_err());
    assert!(MessageParser::parse_message("").is_err());
    assert!(MessageParser::parse_message("{} trailing").is_err());
    assert_eq!(MessageParser::parse_message("{\"a\":[1,2]}").unwrap(), json("{\"a\":[1,2]}"));
}
