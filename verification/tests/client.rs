use serde_json::Value;
use signalr_client::client::client::Sent;
use signalr_client::client::InvocationContext;
use signalr_client::client::{ConnectionConfiguration, SignalRClient};
use signalr_client::communication::client::{
    CommunicationClient, ConnectStep, ConnectionStatus, Stage,
};
use signalr_client::communication::HttpClient;
use signalr_client::completer::manual_stream::StreamProgress;
use signalr_client::error::HubError;
use signalr_client::execution::UpdatableActionStorage;
use signalr_client::protocol::negotiate::{NegotiateResponseV0, TransportSpec};
use signalr_client::protocol::invoke::Invocation;
use std::task::Waker;

const RS: &str = "\u{1e}";

fn json(text: &str) -> Value {
    serde_json::from_str::<Value>(text).unwrap()
}

fn entity(text: &str, number: i64) -> Value {
    let mut map = serde_json::Map::new();
    map.insert("text".to_string(), Value::from(text));
    map.insert("number".to_string(), Value::from(number));
    Value::Object(map)
}

fn local_configuration() -> ConnectionConfiguration {
    let mut configuration = ConnectionConfiguration::new("localhost".to_string(), "test".to_string());
    configuration.with_port(5220);
    configuration.unsecure();
    configuration
}

fn connected_client() -> SignalRClient {
    let mut client = SignalRClient::connect_with(local_configuration()).ok().unwrap();
    client.receive(ConnectionStatus::Connected, &Vec::new());
    assert!(matches!(client.connect_internal(Waker::noop()), ConnectStep::SendHandshake(_)));
    client.receive(ConnectionStatus::Connected, &vec![format!("{{}}{}", RS)]);
    assert!(matches!(client.connect_internal(Waker::noop()), ConnectStep::Done));
    client
}

struct Call {
    invocation_id: String,
    frame: String,
}

fn sent(sent: Sent) -> Call {
    match sent.frame {
        Ok(frame) => Call { invocation_id: sent.invocation_id, frame },
        Err(error) => panic!("sending failed: {}", error.message()),
    }
}

#[test]
fn connect_derives_the_socket_url() {
    let client = SignalRClient::connect("example.org", "hub").ok().unwrap();
    assert_eq!(client.get_endpoint(), "wss://example.org/hub");
    assert_eq!(client.get_stage(), Stage::Connect);
    let client = SignalRClient::connect_with(local_configuration()).ok().unwrap();
    assert_eq!(client.get_endpoint(), "ws://localhost:5220/test");
}

#[test]
fn connect_refuses_a_malformed_endpoint() {
    match SignalRClient::connect("exa mple.org", "hub") {
        Err(HubError::Config(message)) => {
            assert_eq!(message, "The endpoint Uri is invalid: wss://exa mple.org/hub")
        }
        _ => panic!("a configuration error was expected"),
    }
}

#[test]
fn handshake_sequencing() {
    let mut client = SignalRClient::connect_with(local_configuration()).ok().unwrap();
    let waker = Waker::noop();
    assert!(matches!(client.connect_internal(waker), ConnectStep::Wait));
    client.receive(ConnectionStatus::Connecting, &Vec::new());
    assert!(matches!(client.connect_internal(waker), ConnectStep::Wait));
    client.receive(ConnectionStatus::Connected, &Vec::new());
    match client.connect_internal(waker) {
        ConnectStep::SendHandshake(frame) => {
            assert_eq!(frame, "{\"protocol\":\"json\",\"version\":1}\u{1e}")
        }
        _ => panic!("the handshake request was expected"),
    }
    assert_eq!(client.get_stage(), Stage::Handshake);
    assert!(matches!(client.connect_internal(waker), ConnectStep::Wait));
    client.receive(ConnectionStatus::Connected, &vec![format!("{{}}{}", RS)]);
    assert!(matches!(client.connect_internal(waker), ConnectStep::Done));
    assert_eq!(client.get_stage(), Stage::Process);
    assert!(matches!(client.connect_internal(waker), ConnectStep::Done));
}

#[test]
fn handshake_error_aborts_the_connect() {
    let mut client = SignalRClient::connect_with(local_configuration()).ok().unwrap();
    let waker = Waker::noop();
    client.receive(ConnectionStatus::Connected, &Vec::new());
    assert!(matches!(client.connect_internal(waker), ConnectStep::SendHandshake(_)));
    client.receive(
        ConnectionStatus::Connected,
        &vec![format!("{{\"error\":\"Requested protocol 'x' is not available.\"}}{}", RS)],
    );
    match client.connect_internal(waker) {
        ConnectStep::Failed(HubError::Handshake(message)) => assert_eq!(message, "Unsuccessfull handshake"),
        _ => panic!("a handshake error was expected"),
    }
    assert_eq!(client.get_stage(), Stage::Closed);
    assert!(matches!(client.connect_internal(waker), ConnectStep::Failed(HubError::Connect(_))));
}

#[test]
fn malformed_handshake_reply_aborts_the_connect() {
    let mut client = SignalRClient::connect_with(local_configuration()).ok().unwrap();
    let waker = Waker::noop();
    client.receive(ConnectionStatus::Connected, &Vec::new());
    assert!(matches!(client.connect_internal(waker), ConnectStep::SendHandshake(_)));
    client.receive(ConnectionStatus::Connected, &vec![format!("not json{}", RS)]);
    assert!(matches!(client.connect_internal(waker), ConnectStep::Failed(HubError::Handshake(_))));
}

#[test]
fn sending_before_the_handshake_is_a_send_error() {
    let mut client = SignalRClient::connect_with(local_configuration()).ok().unwrap();
    match client.send("Trigger".to_string()) {
        Err(HubError::Send(message)) => assert_eq!(message, "Client is not connected, cannot send"),
        _ => panic!("a send error was expected"),
    }
    let invoked = client.invoke("SingleEntity".to_string());
    assert_eq!(invoked.invocation_id, "SingleEntity_1");
    assert!(matches!(invoked.frame, Err(HubError::Send(_))));
    let enumerated = client.enumerate("HundredEntities".to_string());
    assert_eq!(enumerated.invocation_id, "HundredEntities_2");
    assert!(matches!(enumerated.frame, Err(HubError::Send(_))));
    assert!(client.is_registered("SingleEntity_1".to_string()));
    assert!(client.is_registered("HundredEntities_2".to_string()));
    assert!(matches!(client.send_direct(&Value::from(1)), Err(HubError::Send(_))));
}

#[test]
fn echo_invoke() {
    let mut client = connected_client();
    let call = sent(client.invoke("SingleEntity".to_string()));
    assert_eq!(call.invocation_id, "SingleEntity_1");
    assert_eq!(
        call.frame,
        "{\"type\":1,\"target\":\"SingleEntity\",\"arguments\":[],\"invocationId\":\"SingleEntity_1\"}\u{1e}"
    );
    assert!(client.is_registered("SingleEntity_1".to_string()));
    assert!(client.poll_invocation("SingleEntity_1".to_string(), Waker::noop()).is_none());
    let received = client.receive(
        ConnectionStatus::Connected,
        &vec!["{\"type\":3,\"invocationId\":\"SingleEntity_1\",\"result\":{\"text\":\"test\",\"number\":1}}\u{1e}".to_string()],
    );
    assert!(received.calls.is_empty());
    assert!(received.reports.is_empty());
    assert!(!received.closed);
    assert!(!client.is_registered("SingleEntity_1".to_string()));
    match client.poll_invocation("SingleEntity_1".to_string(), Waker::noop()) {
        Some(Ok(Some(value))) => assert_eq!(value, entity("test", 1)),
        _ => panic!("the result was expected"),
    }
}

#[test]
fn streamed_hundred() {
    let mut client = connected_client();
    let call = sent(client.enumerate("HundredEntities".to_string()));
    assert_eq!(
        call.frame,
        "{\"type\":4,\"target\":\"HundredEntities\",\"arguments\":[],\"invocationId\":\"HundredEntities_1\"}\u{1e}"
    );
    let mut reads: Vec<String> = Vec::new();
    for i in 0..100 {
        reads.push(format!(
            "{{\"type\":2,\"invocationId\":\"HundredEntities_1\",\"item\":{{\"text\":\"e\",\"number\":{}}}}}{}",
            i, RS
        ));
    }
    reads.push(format!("{{\"type\":3,\"invocationId\":\"HundredEntities_1\"}}{}", RS));
    client.receive(ConnectionStatus::Connected, &reads);
    for i in 0..100 {
        match client.poll_stream(call.invocation_id.clone(), Waker::noop()) {
            StreamProgress::Item(item) => assert_eq!(item, entity("e", i)),
            _ => panic!("item {} was expected", i),
        }
    }
    assert!(matches!(
        client.poll_stream(call.invocation_id.clone(), Waker::noop()),
        StreamProgress::End
    ));
    assert!(matches!(
        client.poll_stream(call.invocation_id.clone(), Waker::noop()),
        StreamProgress::End
    ));
}

#[test]
fn stream_items_are_seen_before_the_completion_arrives() {
    let mut client = connected_client();
    let call = sent(client.enumerate("Ticks".to_string()));
    assert!(matches!(client.poll_stream(call.invocation_id.clone(), Waker::noop()), StreamProgress::Pending));
    client.receive(
        ConnectionStatus::Connected,
        &vec![format!("{{\"type\":2,\"invocationId\":\"Ticks_1\",\"item\":1}}{}", RS)],
    );
    assert!(matches!(client.poll_stream(call.invocation_id.clone(), Waker::noop()), StreamProgress::Item(_)));
    assert!(matches!(client.poll_stream(call.invocation_id.clone(), Waker::noop()), StreamProgress::Pending));
    client.receive(
        ConnectionStatus::Connected,
        &vec![format!(
            "{{\"type\":3,\"invocationId\":\"Ticks_1\"}}{}{{\"type\":2,\"invocationId\":\"Ticks_1\",\"item\":2}}{}",
            RS, RS
        )],
    );
    assert!(matches!(client.poll_stream(call.invocation_id.clone(), Waker::noop()), StreamProgress::End));
    assert!(matches!(client.poll_stream(call.invocation_id.clone(), Waker::noop()), StreamProgress::End));
}

#[test]
fn two_argument_push() {
    let mut client = connected_client();
    let call = sent(client.invoke_with_args(
        "PushTwoEntities".to_string(),
        vec![entity("a", 200), entity("b", 300)],
    ));
    assert_eq!(
        call.frame,
        "{\"type\":1,\"target\":\"PushTwoEntities\",\"arguments\":[{\"text\":\"a\",\"number\":200},{\"text\":\"b\",\"number\":300}],\"invocationId\":\"PushTwoEntities_1\"}\u{1e}"
    );
    client.receive(
        ConnectionStatus::Connected,
        &vec![format!(
            "{{\"type\":3,\"invocationId\":\"PushTwoEntities_1\",\"result\":{{\"text\":\"ab\",\"number\":500}}}}{}",
            RS
        )],
    );
    match client.poll_invocation(call.invocation_id, Waker::noop()) {
        Some(Ok(Some(value))) => assert_eq!(value, entity("ab", 500)),
        _ => panic!("the result was expected"),
    }
}

#[test]
fn server_driven_callback_with_completion() {
    let mut client = connected_client();
    client.register("cb".to_string());
    let received = client.receive(
        ConnectionStatus::Connected,
        &vec![format!(
            "{{\"type\":1,\"target\":\"cb\",\"invocationId\":\"k\",\"arguments\":[{{\"text\":\"in\",\"number\":1}}]}}{}",
            RS
        )],
    );
    assert_eq!(received.calls.len(), 1);
    let context = &received.calls[0];
    assert_eq!(context.argument(0).ok(), Some("{\"text\":\"in\",\"number\":1}".to_string()));
    assert_eq!(
        context.complete(entity("out", 2)).ok(),
        Some("{\"type\":3,\"invocationId\":\"k\",\"result\":{\"text\":\"out\",\"number\":2}}\u{1e}".to_string())
    );
    assert!(client.is_registered("cb".to_string()));
}

#[test]
fn fire_and_forget_send() {
    let client = connected_client();
    assert_eq!(
        client.send_with_args("Trigger".to_string(), vec![Value::from("cb")]).ok(),
        Some("{\"type\":1,\"target\":\"Trigger\",\"arguments\":[\"cb\"]}\u{1e}".to_string())
    );
    assert_eq!(
        client.send("Trigger".to_string()).ok(),
        Some("{\"type\":1,\"target\":\"Trigger\",\"arguments\":[]}\u{1e}".to_string())
    );
    assert_eq!(
        client.send_direct(&json("{\"type\":6}")).ok(),
        Some("{\"type\":6}\u{1e}".to_string())
    );
}

#[test]
fn split_frames_are_routed_one_by_one_in_order() {
    let mut client = connected_client();
    client.register("first".to_string());
    client.register("second".to_string());
    let read = format!(
        "{{\"type\":1,\"target\":\"second\",\"arguments\":[2]}}{}{{\"type\":1,\"target\":\"first\",\"arguments\":[1]}}{}",
        RS, RS
    );
    let received = client.receive(ConnectionStatus::Connected, &vec![read]);
    assert_eq!(received.calls.len(), 2);
    assert_eq!(received.calls[0].get_invocation().get_target(), "second");
    assert_eq!(received.calls[1].get_invocation().get_target(), "first");
}

#[test]
fn correlation_ids_are_distinct_and_increasing() {
    let mut client = connected_client();
    let a = sent(client.invoke("A".to_string()));
    let b = sent(client.enumerate("A".to_string()));
    let c = sent(client.invoke("B".to_string()));
    let d = sent(client.invoke_with_args("A".to_string(), vec![Value::from(1)]));
    assert_eq!(a.invocation_id, "A_1");
    assert_eq!(b.invocation_id, "A_2");
    assert_eq!(c.invocation_id, "B_3");
    assert_eq!(d.invocation_id, "A_4");
}

#[test]
fn second_completion_is_dropped() {
    let mut client = connected_client();
    let call = sent(client.invoke("Once".to_string()));
    let received = client.receive(
        ConnectionStatus::Connected,
        &vec![format!(
            "{{\"type\":3,\"invocationId\":\"Once_1\",\"result\":1}}{}{{\"type\":3,\"invocationId\":\"Once_1\",\"result\":2}}{}",
            RS, RS
        )],
    );
    assert!(received.reports.is_empty());
    match client.poll_invocation(call.invocation_id.clone(), Waker::noop()) {
        Some(Ok(Some(value))) => assert_eq!(value, Value::from(1)),
        _ => panic!("the first result was expected"),
    }
    client.receive(
        ConnectionStatus::Connected,
        &vec![format!("{{\"type\":3,\"invocationId\":\"Once_1\",\"result\":3}}{}", RS)],
    );
    assert!(matches!(
        client.poll_invocation(call.invocation_id, Waker::noop()),
        Some(Err(HubError::Cancelled))
    ));
}

#[test]
fn remote_error_and_void_completions() {
    let mut client = connected_client();
    let failing = sent(client.invoke("Fails".to_string()));
    let nothing = sent(client.invoke("Nothing".to_string()));
    client.receive(
        ConnectionStatus::Connected,
        &vec![
            format!("{{\"type\":3,\"invocationId\":\"Fails_1\",\"error\":\"no such method\"}}{}", RS),
            format!("{{\"type\":3,\"invocationId\":\"Nothing_2\"}}{}", RS),
        ],
    );
    match client.poll_invocation(failing.invocation_id, Waker::noop()) {
        Some(Err(HubError::Remote { message })) => assert_eq!(message, "no such method"),
        _ => panic!("the remote error was expected"),
    }
    assert!(matches!(client.poll_invocation(nothing.invocation_id, Waker::noop()), Some(Ok(None))));
}

#[test]
fn unregister_stops_the_callback() {
    let mut client = connected_client();
    let handler = client.register("cb".to_string());
    let message = format!("{{\"type\":1,\"target\":\"cb\",\"arguments\":[]}}{}", RS);
    assert_eq!(client.receive(ConnectionStatus::Connected, &vec![message.clone()]).calls.len(), 1);
    assert_eq!(client.receive(ConnectionStatus::Connected, &vec![message.clone()]).calls.len(), 1);
    client.unregister(handler);
    assert!(!client.is_registered("cb".to_string()));
    assert_eq!(client.receive(ConnectionStatus::Connected, &vec![message]).calls.len(), 0);
}

#[test]
fn first_registration_wins() {
    let mut client = connected_client();
    let first = client.register("cb".to_string());
    let _second = client.register("cb".to_string());
    assert!(client.is_registered("cb".to_string()));
    client.unregister(first);
    assert!(!client.is_registered("cb".to_string()));
}

#[test]
fn teardown_cancels_pending_invocations_and_ends_streams() {
    let mut client = connected_client();
    let pending = sent(client.invoke("Slow".to_string()));
    let stream = sent(client.enumerate("Endless".to_string()));
    client.register("cb".to_string());
    client.receive(
        ConnectionStatus::Connected,
        &vec![format!("{{\"type\":2,\"invocationId\":\"Endless_2\",\"item\":1}}{}", RS)],
    );
    assert!(client.poll_invocation(pending.invocation_id.clone(), Waker::noop()).is_none());
    assert!(!client.disconnect(2));
    assert_eq!(client.get_stage(), Stage::Process);
    assert!(client.poll_invocation(pending.invocation_id.clone(), Waker::noop()).is_none());
    assert!(client.disconnect(1));
    assert_eq!(client.get_stage(), Stage::Closed);
    assert!(!client.is_registered("cb".to_string()));
    assert!(!client.is_registered(pending.invocation_id.clone()));
    assert!(matches!(
        client.poll_invocation(pending.invocation_id, Waker::noop()),
        Some(Err(HubError::Cancelled))
    ));
    assert!(matches!(client.poll_stream(stream.invocation_id.clone(), Waker::noop()), StreamProgress::Item(_)));
    assert!(matches!(client.poll_stream(stream.invocation_id, Waker::noop()), StreamProgress::End));
    assert!(!client.disconnect(1));
    assert!(matches!(client.send("X".to_string()), Err(HubError::Send(_))));
}

#[test]
fn abandoned_stream_takes_no_more_items_and_leaves_with_its_completion() {
    let mut client = connected_client();
    let stream = sent(client.enumerate("Ticks".to_string()));
    client.receive(
        ConnectionStatus::Connected,
        &vec![format!("{{\"type\":2,\"invocationId\":\"Ticks_1\",\"item\":1}}{}", RS)],
    );
    client.abandon(stream.invocation_id.clone());
    assert!(client.is_registered("Ticks_1".to_string()));
    client.receive(
        ConnectionStatus::Connected,
        &vec![format!("{{\"type\":2,\"invocationId\":\"Ticks_1\",\"item\":2}}{}", RS)],
    );
    assert!(matches!(client.poll_stream(stream.invocation_id.clone(), Waker::noop()), StreamProgress::Item(_)));
    assert!(matches!(client.poll_stream(stream.invocation_id.clone(), Waker::noop()), StreamProgress::End));
    client.receive(
        ConnectionStatus::Connected,
        &vec![format!("{{\"type\":3,\"invocationId\":\"Ticks_1\"}}{}", RS)],
    );
    assert!(!client.is_registered("Ticks_1".to_string()));
    assert!(matches!(client.poll_stream(stream.invocation_id, Waker::noop()), StreamProgress::End));
}

#[test]
fn abandoned_invocation_is_cancelled() {
    let mut client = connected_client();
    let call = sent(client.invoke("Slow".to_string()));
    client.abandon(call.invocation_id.clone());
    assert!(matches!(
        client.poll_invocation(call.invocation_id.clone(), Waker::noop()),
        Some(Err(HubError::Cancelled))
    ));
    client.receive(
        ConnectionStatus::Connected,
        &vec![format!("{{\"type\":3,\"invocationId\":\"Slow_1\",\"result\":1}}{}", RS)],
    );
    assert!(!client.is_registered("Slow_1".to_string()));
    assert!(matches!(
        client.poll_invocation(call.invocation_id, Waker::noop()),
        Some(Err(HubError::Cancelled))
    ));
}

#[test]
fn close_message_tears_the_client_down() {
    let mut client = connected_client();
    let pending = sent(client.invoke("Slow".to_string()));
    let stream = sent(client.enumerate("Endless".to_string()));
    client.register("cb".to_string());
    let read = format!(
        "{{\"type\":7,\"error\":\"server shutting down\"}}{}{{\"type\":1,\"target\":\"cb\"}}{}",
        RS, RS
    );
    let received = client.receive(ConnectionStatus::Connected, &vec![read]);
    assert!(received.closed);
    assert!(received.calls.is_empty());
    assert_eq!(client.get_stage(), Stage::Closed);
    assert!(!client.is_registered("cb".to_string()));
    assert!(matches!(
        client.poll_invocation(pending.invocation_id, Waker::noop()),
        Some(Err(HubError::Cancelled))
    ));
    assert!(matches!(client.poll_stream(stream.invocation_id, Waker::noop()), StreamProgress::End));
    assert!(matches!(client.send("X".to_string()), Err(HubError::Send(_))));
}

#[test]
fn malformed_frames_are_reported_and_do_not_stop_the_rest() {
    let mut client = connected_client();
    let call = sent(client.invoke("A".to_string()));
    let read = format!(
        "garbage{}{{\"no\":\"type\"}}{}{{\"type\":6}}{}{{\"type\":3,\"invocationId\":\"A_1\",\"result\":true}}{}",
        RS, RS, RS, RS
    );
    let received = client.receive(ConnectionStatus::Connected, &vec![read]);
    assert_eq!(
        received.reports,
        vec![
            "Message could not be parsed: garbage".to_string(),
            "Message could not be parsed: {\"no\":\"type\"}".to_string()
        ]
    );
    assert!(matches!(client.poll_invocation(call.invocation_id, Waker::noop()), Some(Ok(Some(Value::Bool(true))))));
}

#[test]
fn nothing_is_received_while_the_socket_is_not_open() {
    let mut client = connected_client();
    let call = sent(client.invoke("A".to_string()));
    let read = vec![format!("{{\"type\":3,\"invocationId\":\"A_1\",\"result\":true}}{}", RS)];
    for status in [ConnectionStatus::Connecting, ConnectionStatus::Disconnected, ConnectionStatus::Error] {
        client.receive(status, &read);
        assert!(client.is_registered("A_1".to_string()));
    }
    assert!(client.poll_invocation(call.invocation_id, Waker::noop()).is_none());
}

#[test]
fn context_argument_errors() {
    let invocation = Invocation::from_value(&json("{\"type\":1,\"target\":\"cb\",\"arguments\":[1,\"two\"]}")).unwrap();
    let context = InvocationContext::create(invocation);
    assert_eq!(context.argument(0).ok(), Some("1".to_string()));
    assert_eq!(context.argument(1).ok(), Some("\"two\"".to_string()));
    match context.argument(2) {
        Err(HubError::Deserialize(message)) => {
            assert_eq!(message, "The argument count is not greater than the index 2")
        }
        _ => panic!("an error was expected"),
    }
    let bare = InvocationContext::create(Invocation::from_value(&json("{\"type\":1,\"target\":\"cb\"}")).unwrap());
    match bare.argument(0) {
        Err(HubError::Deserialize(message)) => assert_eq!(message, "There are no arguments for the invocation"),
        _ => panic!("an error was expected"),
    }
}

#[test]
fn complete_without_invocation_id_is_refused() {
    let context = InvocationContext::create(Invocation::from_value(&json("{\"type\":1,\"target\":\"cb\"}")).unwrap());
    match context.complete(Value::from(1)) {
        Err(error) => {
            assert!(matches!(error, HubError::NoInvocationId));
            assert_eq!(
                error.message(),
                "The completion cannot be sent, because there was no invocation id for the call"
            );
        }
        Ok(_) => panic!("an error was expected"),
    }
}

#[test]
fn storage_is_available_once_the_connection_processes() {
    let data = HttpClient::negotiate(local_configuration()).unwrap();
    let connection = CommunicationClient::create(&data);
    assert_eq!(connection.get_endpoint(), "ws://localhost:5220/test");
    assert_eq!(connection.get_stage(), Stage::Connect);
    assert_eq!(
        connection.get_storage(),
        Err(HubError::Connect("The connection is in a bad state".to_string()))
    );
    let mut connection = connection;
    let mut storage = UpdatableActionStorage::new();
    let mut ended = UpdatableActionStorage::new();
    connection.polling_loop(ConnectionStatus::Connected, &Vec::new(), &mut storage, &mut ended);
    assert!(matches!(connection.connect_internal(Waker::noop()), ConnectStep::SendHandshake(_)));
    connection.polling_loop(
        ConnectionStatus::Connected,
        &vec!["{}\u{1e}".to_string()],
        &mut storage,
        &mut ended,
    );
    assert!(matches!(connection.connect_internal(Waker::noop()), ConnectStep::Done));
    assert_eq!(connection.get_storage(), Ok(()));
    assert!(!connection.disconnect(3));
    assert!(connection.disconnect(0));
    assert!(connection.get_storage().is_err());
}

#[test]
fn http_client_never_negotiates() {
    let data = HttpClient::negotiate(local_configuration()).unwrap();
    assert_eq!(data.get_endpoint(), "ws://localhost:5220/test");
    assert_eq!(data.get_connection_id(), "");
    let negotiated = NegotiateResponseV0 {
        connection_id: "c".to_string(),
        negotiate_version: 0,
        available_transports: vec![TransportSpec {
            transport: "WebSockets".to_string(),
            transfer_formats: vec!["Text".to_string()],
        }],
    };
    let configured = HttpClient::create_configuration("ws://localhost:5220/test".to_string(), negotiated);
    assert_eq!(configured, Some(data.clone()));
    assert_eq!(
        HttpClient::post("http://x".to_string(), local_configuration().get_authentication()).err(),
        Some("Direct WebSocket connection, POST not needed".to_string())
    );
}

#[test]
fn get_messages_splits_a_read() {
    assert_eq!(
        CommunicationClient::get_messages("A\u{1e}B\u{1e}"),
        vec!["A".to_string(), "B".to_string()]
    );
    assert_eq!(
        CommunicationClient::receive_messages(&vec!["A\u{1e}".to_string(), "".to_string(), "B\u{1e}C".to_string()]),
        vec!["A".to_string(), "B".to_string(), "C".to_string()]
    );
}
