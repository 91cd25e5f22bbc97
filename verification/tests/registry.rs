use serde_json::Value;
use signalr_client::completer::manual_future::Progress;
use signalr_client::completer::manual_stream::StreamProgress;
use signalr_client::execution::callback::CallbackAction;
use signalr_client::execution::enumerable::EnumerableAction;
use signalr_client::execution::invocation::{ActionUpdate, InvocationAction, InvocationOutcome};
use signalr_client::execution::storage::{
    CallbackHandler, Dispatch, StorageUnregistrationHandler, UpdatableActionStorage,
};
use signalr_client::execution::{ArgumentConfiguration, UpdatableAction};
use signalr_client::protocol::invoke::Invocation;
use signalr_client::protocol::messages::MessageParser;
use signalr_client::protocol::negotiate::MessageType;
use std::task::Waker;

fn json(text: &str) -> Value {
    serde_json::from_str::<Value>(text).unwrap()
}

#[test]
fn keys_are_target_underscore_counter() {
    let mut storage = UpdatableActionStorage::new();
    assert_eq!(storage.create_key("SingleEntity".to_string()), "SingleEntity_1");
    assert_eq!(storage.create_key("SingleEntity".to_string()), "SingleEntity_2");
    assert_eq!(storage.create_key("Other".to_string()), "Other_3");
    assert_eq!(storage.increment(), 4);
    assert_eq!(storage.create_key("a_1".to_string()), "a_1_5");
}

#[test]
fn keys_of_a_session_are_pairwise_distinct() {
    let mut storage = UpdatableActionStorage::new();
    let targets = ["a", "a_1", "a", "b", "a_1_1", "", "_"];
    let mut keys: Vec<String> = Vec::new();
    for _ in 0..30 {
        for target in targets.iter() {
            keys.push(storage.create_key(target.to_string()));
        }
    }
    for i in 0..keys.len() {
        for j in 0..i {
            assert_ne!(keys[i], keys[j]);
        }
    }
    assert_eq!(keys[8], "a_1_9");
    assert_eq!(keys[9], "a_10");
    assert_eq!(keys[209], "__210");
}

#[test]
fn insert_rejects_a_duplicate_and_keeps_the_first() {
    let mut storage = UpdatableActionStorage::new();
    assert!(storage.add_invocation("k".to_string()));
    assert!(storage.contains("k".to_string()));
    assert!(!storage.add_callback("k".to_string()));
    assert!(!storage.add_stream("k".to_string()));
    assert!(!storage.insert(
        "k".to_string(),
        UpdatableAction::Callback(CallbackAction::create("k".to_string()))
    ));
    match storage.remove("k".to_string()) {
        Some(UpdatableAction::Invocation(_)) => {}
        _ => panic!("the first entry was expected"),
    }
    assert!(!storage.contains("k".to_string()));
    assert!(storage.remove("k".to_string()).is_none());
}

#[test]
fn completion_resolves_and_removes_the_invocation() {
    let mut storage = UpdatableActionStorage::new();
    let key = storage.create_key("SingleEntity".to_string());
    storage.add_invocation(key.clone());
    let message = "{\"type\":3,\"invocationId\":\"SingleEntity_1\",\"result\":{\"text\":\"test\",\"number\":1}}";
    let dispatch = storage.process_message(message.to_string(), MessageType::Completion).unwrap();
    assert!(!storage.contains(key.clone()));
    match dispatch {
        Dispatch::Finished(name, UpdatableAction::Invocation(mut action)) => {
            assert_eq!(name, key);
            assert!(action.is_completed());
            match action.poll(Waker::noop()) {
                Progress::Ready(InvocationOutcome::Value(value)) => {
                    assert_eq!(value, json("{\"text\":\"test\",\"number\":1}"))
                }
                _ => panic!("the result was expected"),
            }
        }
        _ => panic!("the finished invocation was expected"),
    }
    let again = storage.process_message(message.to_string(), MessageType::Completion).unwrap();
    assert!(matches!(again, Dispatch::Ignored));
}

#[test]
fn completion_with_error_surfaces_the_remote_error() {
    let mut storage = UpdatableActionStorage::new();
    storage.add_invocation("X_1".to_string());
    let dispatch = storage
        .process_message("{\"type\":3,\"invocationId\":\"X_1\",\"error\":\"boom\"}".to_string(), MessageType::Completion)
        .unwrap();
    match dispatch {
        Dispatch::Finished(_, UpdatableAction::Invocation(mut action)) => match action.poll(Waker::noop()) {
            Progress::Ready(InvocationOutcome::RemoteError(message)) => assert_eq!(message, "boom"),
            _ => panic!("the remote error was expected"),
        },
        _ => panic!("the finished invocation was expected"),
    }
}

#[test]
fn completion_without_result_or_error_is_void_success() {
    let mut storage = UpdatableActionStorage::new();
    storage.add_invocation("X_1".to_string());
    let dispatch = storage
        .process_message("{\"type\":3,\"invocationId\":\"X_1\"}".to_string(), MessageType::Completion)
        .unwrap();
    match dispatch {
        Dispatch::Finished(_, UpdatableAction::Invocation(mut action)) => {
            assert!(matches!(action.poll(Waker::noop()), Progress::Ready(InvocationOutcome::Void)))
        }
        _ => panic!("the finished invocation was expected"),
    }
}

#[test]
fn unreadable_completion_cancels_the_invocation() {
    let mut storage = UpdatableActionStorage::new();
    storage.add_invocation("X_1".to_string());
    let dispatch = storage
        .process_message("{\"type\":3,\"invocationId\":\"X_1\",\"error\":5}".to_string(), MessageType::Completion)
        .unwrap();
    match dispatch {
        Dispatch::Finished(_, UpdatableAction::Invocation(mut action)) => {
            assert!(matches!(action.poll(Waker::noop()), Progress::Finished))
        }
        _ => panic!("the finished invocation was expected"),
    }
}

#[test]
fn stream_items_are_pushed_and_completion_ends_the_stream() {
    let mut storage = UpdatableActionStorage::new();
    storage.add_stream("S_1".to_string());
    for i in 0..3 {
        let message = format!("{{\"type\":2,\"invocationId\":\"S_1\",\"item\":{}}}", i);
        let dispatch = storage.process_message(message, MessageType::StreamItem).unwrap();
        assert!(matches!(dispatch, Dispatch::Updated));
    }
    match storage.poll_stream("S_1".to_string(), Waker::noop()) {
        Some(StreamProgress::Item(item)) => assert_eq!(item, Value::from(0)),
        _ => panic!("the first item was expected"),
    }
    let dispatch = storage
        .process_message("{\"type\":3,\"invocationId\":\"S_1\"}".to_string(), MessageType::Completion)
        .unwrap();
    assert!(!storage.contains("S_1".to_string()));
    match dispatch {
        Dispatch::Finished(_, UpdatableAction::Stream(mut action)) => {
            assert!(action.is_completed());
            assert!(matches!(action.poll_next(Waker::noop()), StreamProgress::Item(_)));
            assert!(matches!(action.poll_next(Waker::noop()), StreamProgress::Item(_)));
            assert!(matches!(action.poll_next(Waker::noop()), StreamProgress::End));
        }
        _ => panic!("the finished stream was expected"),
    }
    let late = storage
        .process_message("{\"type\":2,\"invocationId\":\"S_1\",\"item\":9}".to_string(), MessageType::StreamItem)
        .unwrap();
    assert!(matches!(late, Dispatch::Ignored));
}

#[test]
fn invocation_is_routed_to_the_callback_under_its_target() {
    let mut storage = UpdatableActionStorage::new();
    assert!(storage.add_callback("cb".to_string()));
    let message = "{\"type\":1,\"target\":\"cb\",\"invocationId\":\"k\",\"arguments\":[{\"text\":\"x\",\"number\":2}]}";
    match storage.process_message(message.to_string(), MessageType::Invocation).unwrap() {
        Dispatch::Call(context) => {
            assert_eq!(context.get_invocation().get_target(), "cb");
            assert_eq!(context.argument(0).ok(), Some("{\"text\":\"x\",\"number\":2}".to_string()));
            assert_eq!(
                context.complete(json("{\"text\":\"y\",\"number\":3}")).ok(),
                Some("{\"type\":3,\"invocationId\":\"k\",\"result\":{\"text\":\"y\",\"number\":3}}\u{1e}".to_string())
            );
        }
        _ => panic!("a call was expected"),
    }
    assert!(storage.contains("cb".to_string()));
    let other = storage
        .process_message("{\"type\":1,\"target\":\"unknown\"}".to_string(), MessageType::Invocation)
        .unwrap();
    assert!(matches!(other, Dispatch::Ignored));
}

#[test]
fn unregister_stops_the_routing() {
    let mut storage = UpdatableActionStorage::new();
    storage.add_callback("cb".to_string());
    let handler = StorageUnregistrationHandler::new("cb".to_string());
    handler.unregister(&mut storage);
    assert!(!storage.contains("cb".to_string()));
    let dispatch = storage
        .process_message("{\"type\":1,\"target\":\"cb\"}".to_string(), MessageType::Invocation)
        .unwrap();
    assert!(matches!(dispatch, Dispatch::Ignored));
}

#[test]
fn completion_does_not_remove_a_callback() {
    let mut storage = UpdatableActionStorage::new();
    storage.add_callback("cb".to_string());
    let dispatch = storage
        .process_message("{\"type\":3,\"invocationId\":\"cb\"}".to_string(), MessageType::Completion)
        .unwrap();
    assert!(matches!(dispatch, Dispatch::Ignored));
    assert!(storage.contains("cb".to_string()));
}

#[test]
fn messages_of_other_kinds_are_ignored() {
    let mut storage = UpdatableActionStorage::new();
    storage.add_invocation("X_1".to_string());
    for kind in [
        MessageType::StreamInvocation,
        MessageType::CancelInvocation,
        MessageType::Ping,
        MessageType::Other,
    ] {
        let dispatch = storage.process_message("not even json".to_string(), kind).unwrap();
        assert!(matches!(dispatch, Dispatch::Ignored));
    }
    let dispatch = storage.process_message("{\"type\":7}".to_string(), MessageType::Close).unwrap();
    assert!(matches!(dispatch, Dispatch::Close));
    assert!(storage.contains("X_1".to_string()));
}

#[test]
fn unroutable_messages_are_reported() {
    let mut storage = UpdatableActionStorage::new();
    storage.add_invocation("X_1".to_string());
    let r = storage.process_message("{\"type\":1}".to_string(), MessageType::Invocation);
    assert_eq!(r.err(), Some("Message could not be parsed: {\"type\":1}".to_string()));
    let r = storage.process_message("{".to_string(), MessageType::Completion);
    assert_eq!(r.err(), Some("Message could not be parsed: {".to_string()));
    let r = storage.process_message("{\"type\":3}".to_string(), MessageType::Completion);
    assert!(matches!(r, Ok(Dispatch::Ignored)));
    assert!(storage.contains("X_1".to_string()));
}

#[test]
fn stream_item_for_an_invocation_is_dropped() {
    let mut storage = UpdatableActionStorage::new();
    storage.add_invocation("X_1".to_string());
    let dispatch = storage
        .process_message("{\"type\":2,\"invocationId\":\"X_1\",\"item\":1}".to_string(), MessageType::StreamItem)
        .unwrap();
    assert!(matches!(dispatch, Dispatch::Ignored));
    assert!(matches!(
        storage.poll_invocation("X_1".to_string(), Waker::noop()),
        Some(Progress::Pending)
    ));
}

#[test]
fn dispose_cancels_invocations_and_ends_streams() {
    let mut storage = UpdatableActionStorage::new();
    storage.add_invocation("X_1".to_string());
    storage.add_stream("S_2".to_string());
    storage.add_callback("cb".to_string());
    storage
        .process_message("{\"type\":2,\"invocationId\":\"S_2\",\"item\":7}".to_string(), MessageType::StreamItem)
        .unwrap();
    let removed = storage.dispose();
    assert_eq!(removed.len(), 3);
    assert!(!storage.contains("X_1".to_string()));
    assert!(!storage.contains("S_2".to_string()));
    assert!(!storage.contains("cb".to_string()));
    for (key, action) in removed {
        match action {
            UpdatableAction::Invocation(mut action) => {
                assert_eq!(key, "X_1");
                assert!(matches!(action.poll(Waker::noop()), Progress::Finished));
            }
            UpdatableAction::Stream(mut action) => {
                assert_eq!(key, "S_2");
                assert!(matches!(action.poll_next(Waker::noop()), StreamProgress::Item(_)));
                assert!(matches!(action.poll_next(Waker::noop()), StreamProgress::End));
            }
            UpdatableAction::Callback(action) => {
                assert_eq!(key, "cb");
                assert_eq!(action.get_target(), "cb");
                assert!(!action.is_completed());
            }
        }
    }
}

#[test]
fn tear_down_moves_pending_actions_to_the_ended_ones() {
    let mut storage = UpdatableActionStorage::new();
    let mut ended = UpdatableActionStorage::new();
    storage.add_invocation("X_1".to_string());
    storage.add_callback("cb".to_string());
    ended.add_stream("X_1".to_string());
    storage.add_invocation("Y_2".to_string());
    storage.tear_down(&mut ended);
    assert!(!storage.contains("X_1".to_string()));
    assert!(!storage.contains("cb".to_string()));
    assert!(ended.contains("Y_2".to_string()));
    assert!(!ended.contains("cb".to_string()));
    assert!(matches!(ended.poll_invocation("Y_2".to_string(), Waker::noop()), Some(Progress::Finished)));
    assert!(ended.poll_invocation("X_1".to_string(), Waker::noop()).is_none());
    assert!(matches!(ended.poll_stream("X_1".to_string(), Waker::noop()), Some(StreamProgress::Pending)));
}

#[test]
fn invocation_action_takes_one_outcome() {
    let mut action = InvocationAction::new("X_1".to_string());
    assert!(action.completable());
    assert!(!action.is_completed());
    assert_eq!(action.get_invocation_id(), "X_1");
    let first = "{\"type\":3,\"invocationId\":\"X_1\",\"result\":1}";
    let second = "{\"type\":3,\"invocationId\":\"X_1\",\"result\":2}";
    assert!(matches!(action.update_with(first, MessageType::Invocation), ActionUpdate::Ignored));
    assert!(matches!(action.update_with(first, MessageType::Completion), ActionUpdate::Updated));
    assert!(!action.completable());
    assert!(matches!(action.update_with(second, MessageType::Completion), ActionUpdate::Ignored));
    assert!(!action.complete(InvocationOutcome::Void));
    action.dispose();
    match action.poll(Waker::noop()) {
        Progress::Ready(InvocationOutcome::Value(value)) => assert_eq!(value, Value::from(1)),
        _ => panic!("the first outcome was expected"),
    }
}

#[test]
fn enumerable_action_drops_items_after_its_end() {
    let mut action = EnumerableAction::new("S_1".to_string());
    assert_eq!(action.get_invocation_id(), "S_1");
    let item = "{\"type\":2,\"invocationId\":\"S_1\",\"item\":\"a\"}";
    let end = "{\"type\":3,\"invocationId\":\"S_1\"}";
    assert!(matches!(action.update_with(item, MessageType::StreamItem), ActionUpdate::Updated));
    assert!(matches!(action.update_with("{\"type\":2}", MessageType::StreamItem), ActionUpdate::Ignored));
    assert!(matches!(action.update_with(item, MessageType::Ping), ActionUpdate::Ignored));
    assert!(!action.is_completed());
    assert!(matches!(action.update_with(end, MessageType::Completion), ActionUpdate::Updated));
    assert!(action.is_completed());
    assert!(matches!(action.update_with(item, MessageType::StreamItem), ActionUpdate::Ignored));
    action.dispose();
    assert!(matches!(action.poll_next(Waker::noop()), StreamProgress::Item(_)));
    assert!(matches!(action.poll_next(Waker::noop()), StreamProgress::End));
    assert!(matches!(action.poll_next(Waker::noop()), StreamProgress::Pending));
}

#[test]
fn callback_action_accepts_only_invocations() {
    let action = CallbackAction::create("cb".to_string());
    assert!(matches!(
        action.update_with("{\"type\":1,\"target\":\"cb\"}", MessageType::Invocation),
        ActionUpdate::Call(_)
    ));
    assert!(matches!(
        action.update_with("{\"type\":1,\"target\":\"cb\"}", MessageType::Completion),
        ActionUpdate::Ignored
    ));
    assert!(matches!(action.update_with("{\"type\":1}", MessageType::Invocation), ActionUpdate::Ignored));
}

#[test]
fn argument_configuration_keeps_the_order_and_drops_failures() {
    let mut configuration = ArgumentConfiguration::new(Invocation::create_single("PushTwoEntities".to_string()));
    let failure = serde_json::from_str::<Value>("nope").unwrap_err();
    configuration
        .argument(Ok(json("{\"text\":\"a\",\"number\":200}")))
        .argument(Err(failure))
        .argument(Ok(json("{\"text\":\"b\",\"number\":300}")));
    let failure = serde_json::from_str::<Value>("nope").unwrap_err();
    assert!(configuration.try_argument(Err(failure)).is_err());
    assert!(configuration.try_argument(Ok(Value::from(true))).is_ok());
    let invocation = configuration.build_invocation();
    assert_eq!(
        MessageParser::to_json(&invocation.to_value()),
        "{\"type\":1,\"target\":\"PushTwoEntities\",\"arguments\":[{\"text\":\"a\",\"number\":200},{\"text\":\"b\",\"number\":300},true]}\u{1e}"
    );
}
