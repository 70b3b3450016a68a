use zzrpc::consumer::state::{ConsumerEvent, ConsumerStep, Notice, PendingRequest, Recorded};
use zzrpc::consumer::{ConsumerState, ResultSender};
use zzrpc::{HandlingStrategy, ShutdownType};

type State = ConsumerState<&'static str, &'static str, &'static str>;

const ADD: usize = 1;
const STREAM_TIME: usize = 4;

fn value(name: &'static str) -> ResultSender<&'static str, &'static str, &'static str> {
    ResultSender::Value(name)
}

fn stream(opener: &'static str, items: &'static str) -> ResultSender<&'static str, &'static str, &'static str> {
    ResultSender::Stream { result_sender: opener, values_sender: items }
}

#[test]
fn new_consumer_is_idle() {
    let state = State::new();
    assert!(state.idle());
}

#[test]
fn sent_value_request_waits_until_answered() {
    let mut state = State::new();
    assert!(matches!(state.record_sent(0, ADD, value("reply-0"), true), Recorded::Kept));
    assert!(!state.idle());
    assert_eq!(state.take_value_sender(0, STREAM_TIME), None);
    assert_eq!(state.take_value_sender(7, ADD), None);
    assert_eq!(state.take_value_sender(0, ADD), Some("reply-0"));
    assert!(state.idle());
    // a second answer for the same id reaches nobody
    assert_eq!(state.take_value_sender(0, ADD), None);
}

#[test]
fn unsent_request_is_handed_back() {
    let mut state = State::new();
    match state.record_sent(3, ADD, value("reply-3"), false) {
        Recorded::Rejected(ResultSender::Value(v)) => assert_eq!(v, "reply-3"),
        other => panic!("unexpected {other:?}"),
    }
    assert!(state.idle());
    match state.record_sent(4, STREAM_TIME, stream("open-4", "items-4"), false) {
        Recorded::Rejected(ResultSender::Stream { result_sender, .. }) => assert_eq!(result_sender, "open-4"),
        other => panic!("unexpected {other:?}"),
    }
    assert!(state.idle());
}

#[test]
fn stream_waits_until_opened_and_forwards_items() {
    let mut state = State::new();
    assert!(matches!(state.record_sent(9, STREAM_TIME, stream("open-9", "items-9"), true), Recorded::Kept));
    assert!(!state.idle());
    assert_eq!(state.items_sender(9, STREAM_TIME), Some(&"items-9"));
    assert_eq!(state.take_opener(9, STREAM_TIME), Some("open-9"));
    assert!(state.idle());
    assert_eq!(state.take_opener(9, STREAM_TIME), None);
    assert_eq!(state.items_sender(9, STREAM_TIME), Some(&"items-9"));
    assert!(matches!(state.close_stream(9, STREAM_TIME), Some(PendingRequest::Stream { opener: None, .. })));
    assert_eq!(state.items_sender(9, STREAM_TIME), None);
    assert!(state.idle());
}

#[test]
fn abort_forgets_request_and_waiting() {
    let mut state = State::new();
    state.record_sent(1, ADD, value("reply-1"), true);
    state.record_sent(2, STREAM_TIME, stream("open-2", "items-2"), true);
    assert!(matches!(state.record_sent(1, STREAM_TIME, ResultSender::Abort, true), Recorded::Forgotten(None)));
    assert!(matches!(
        state.record_sent(1, ADD, ResultSender::Abort, false),
        Recorded::Forgotten(Some(PendingRequest::Value { sender: "reply-1", .. }))
    ));
    assert!(!state.idle());
    state.take_opener(2, STREAM_TIME);
    assert!(state.idle());
    // aborting an opened stream does not count it twice
    assert!(matches!(state.record_sent(2, STREAM_TIME, ResultSender::Abort, true), Recorded::Forgotten(Some(_))));
    assert!(state.idle());
}

#[test]
fn shutdown_notifies_each_waiting_request_once() {
    let mut state = State::new();
    state.record_sent(1, ADD, value("reply-1"), true);
    state.record_sent(2, STREAM_TIME, stream("open-2", "items-2"), true);
    state.record_sent(3, STREAM_TIME, stream("open-3", "items-3"), true);
    state.take_opener(3, STREAM_TIME);
    let mut notices = state.shutdown();
    notices.sort_by_key(|(id, _)| *id);
    assert_eq!(notices.len(), 2);
    assert!(matches!(notices[0], (1, Notice::Value("reply-1"))));
    assert!(matches!(notices[1], (2, Notice::Stream("open-2"))));
    assert_eq!(state.items_sender(3, STREAM_TIME), None);
}

#[test]
fn consumer_loop_decisions() {
    let mut state = State::new();
    assert!(matches!(state.step(ConsumerEvent::TimedOut, true), ConsumerStep::Continue));
    assert!(matches!(state.step(ConsumerEvent::ReceiveFailed(HandlingStrategy::Ignore), true), ConsumerStep::Continue));
    state.record_sent(1, ADD, value("reply-1"), true);
    assert!(matches!(state.step(ConsumerEvent::TimedOut, false), ConsumerStep::Continue));
    assert!(matches!(state.step(ConsumerEvent::Dropped, true), ConsumerStep::Exit));
    match state.step(ConsumerEvent::TimedOut, true) {
        ConsumerStep::Stop { cause, notices } => {
            assert_eq!(cause, ShutdownType::Timeout);
            assert_eq!(notices.len(), 1);
        }
        other => panic!("unexpected {other:?}"),
    }
    assert!(matches!(
        state.step(ConsumerEvent::TransportClosed, true),
        ConsumerStep::Stop { cause: ShutdownType::Closed, .. }
    ));
    assert!(matches!(
        state.step(ConsumerEvent::ProducerStopped(ShutdownType::Aborted), true),
        ConsumerStep::Stop { cause: ShutdownType::Aborted, .. }
    ));
    assert!(matches!(
        state.step(ConsumerEvent::ReceiveFailed(HandlingStrategy::Stop(ShutdownType::Shutdown)), true),
        ConsumerStep::Stop { cause: ShutdownType::Shutdown, .. }
    ));
    assert!(matches!(
        state.step(ConsumerEvent::ShutdownRequested(ShutdownType::Closed), false),
        ConsumerStep::Stop { cause: ShutdownType::Closed, .. }
    ));
}
