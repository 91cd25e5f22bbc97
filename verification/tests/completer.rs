use signalr_client::completer::manual_future::{Progress, State};
use signalr_client::completer::manual_stream::StreamProgress;
use signalr_client::execution::storage::ManualFutureState;
use signalr_client::{CompletedFuture, ManualFuture, ManualStream};
use std::sync::Arc;
use std::sync::atomic::{AtomicUsize, Ordering};
use std::task::{Wake, Waker};

struct Counter(AtomicUsize);

impl Wake for Counter {
    fn wake(self: Arc<Self>) {
        self.0.fetch_add(1, Ordering::SeqCst);
    }
}

#[test]
fn completed_future_hands_its_value_over() {
    let mut future = CompletedFuture::new(42);
    assert_eq!(future.poll(), 42);
}

#[test]
fn state_starts_complete_only_with_a_value() {
    assert!(matches!(State::<i32>::new(None), State::Incomplete));
    assert!(matches!(State::new(Some(3)), State::Complete(Some(3))));
}

#[test]
fn manual_future_complete_then_poll() {
    let (mut future, completer) = ManualFuture::<i32>::new();
    assert!(!future.is_completed());
    assert!(!completer.is_completed(&future));
    completer.complete(&mut future, 42);
    assert!(future.is_completed());
    assert!(matches!(future.poll(Waker::noop()), Progress::Ready(42)));
    assert!(future.is_completed());
}

#[test]
fn manual_future_poll_then_complete() {
    let (mut future, completer) = ManualFuture::<String>::new();
    assert!(matches!(future.poll(Waker::noop()), Progress::Pending));
    assert!(matches!(future.poll(Waker::noop()), Progress::Pending));
    assert!(!future.is_completed());
    completer.complete(&mut future, "done".to_string());
    match future.poll(Waker::noop()) {
        Progress::Ready(value) => assert_eq!(value, "done"),
        _ => panic!("the value was expected"),
    }
}

#[test]
fn manual_future_yields_its_value_once() {
    let (mut future, completer) = ManualFuture::<i32>::new();
    completer.complete(&mut future, 1);
    assert!(matches!(future.poll(Waker::noop()), Progress::Ready(1)));
    assert!(matches!(future.poll(Waker::noop()), Progress::Finished));
    assert!(matches!(future.poll(Waker::noop()), Progress::Finished));
}

#[test]
fn manual_future_cancel_ends_the_wait() {
    let (mut future, completer) = ManualFuture::<i32>::new();
    assert!(matches!(future.poll(Waker::noop()), Progress::Pending));
    completer.cancel(&mut future);
    assert!(future.is_completed());
    assert!(matches!(future.poll(Waker::noop()), Progress::Finished));
}

#[test]
fn manual_future_wakes_the_waiter_on_completion() {
    let counter = Arc::new(Counter(AtomicUsize::new(0)));
    let waker = Waker::from(counter.clone());
    let (mut future, completer) = ManualFuture::<i32>::new();
    assert!(matches!(future.poll(&waker), Progress::Pending));
    assert_eq!(counter.0.load(Ordering::SeqCst), 0);
    completer.complete(&mut future, 5);
    assert_eq!(counter.0.load(Ordering::SeqCst), 1);

    let (mut cancelled, completer) = ManualFuture::<i32>::new();
    assert!(matches!(cancelled.poll(&waker), Progress::Pending));
    completer.cancel(&mut cancelled);
    assert_eq!(counter.0.load(Ordering::SeqCst), 2);
}

#[test]
fn manual_stream_delivers_in_push_order_then_ends() {
    let (mut stream, completer) = ManualStream::<i32>::create();
    assert!(matches!(stream.poll_next(Waker::noop()), StreamProgress::Pending));
    completer.push(&mut stream, 1);
    completer.push(&mut stream, 2);
    completer.push(&mut stream, 3);
    completer.close(&mut stream);
    assert!(matches!(stream.poll_next(Waker::noop()), StreamProgress::Item(1)));
    assert!(matches!(stream.poll_next(Waker::noop()), StreamProgress::Item(2)));
    assert!(matches!(stream.poll_next(Waker::noop()), StreamProgress::Item(3)));
    assert!(matches!(stream.poll_next(Waker::noop()), StreamProgress::End));
    assert!(matches!(stream.poll_next(Waker::noop()), StreamProgress::Pending));
}

#[test]
fn manual_stream_interleaves_pushes_and_polls() {
    let (mut stream, completer) = ManualStream::<&'static str>::create();
    completer.push(&mut stream, "a");
    assert!(matches!(stream.poll_next(Waker::noop()), StreamProgress::Item("a")));
    assert!(matches!(stream.poll_next(Waker::noop()), StreamProgress::Pending));
    completer.push(&mut stream, "b");
    assert!(matches!(stream.poll_next(Waker::noop()), StreamProgress::Item("b")));
    completer.close(&mut stream);
    assert!(matches!(stream.poll_next(Waker::noop()), StreamProgress::End));
}

#[test]
fn manual_future_state_answers_once() {
    let mut state = ManualFutureState::new();
    assert_eq!(state.awaiter(Waker::noop()), None);
    state.complete(true);
    state.complete(false);
    assert_eq!(state.awaiter(Waker::noop()), Some(true));
    assert_eq!(state.awaiter(Waker::noop()), Some(false));
}
