use zzrpc::producer::{
    farewell_message, reported_failure, stop_cause_of, Message, ProducerEvent, ProducerState, ProducerStep, StopLatch,
};
use zzrpc::{HandlingStrategy, ShutdownType};

#[test]
fn producer_times_out_only_when_nothing_runs() {
    let mut state: ProducerState<&str> = ProducerState::new();
    assert_eq!(state.start(1, "abort-1"), None);
    assert!(matches!(state.step::<u8>(ProducerEvent::TimedOut, true), ProducerStep::ResetTimeout));
    assert!(matches!(state.step::<u8>(ProducerEvent::TimedOut, false), ProducerStep::Continue));
    assert_eq!(state.finished(1), Some("abort-1"));
    assert!(matches!(
        state.step::<u8>(ProducerEvent::TimedOut, true),
        ProducerStep::Stop { cause: ShutdownType::Timeout, farewell: None }
    ));
    let (left, cause) = state.finish();
    assert!(left.is_empty());
    assert_eq!(cause, ShutdownType::Timeout);
}

#[test]
fn producer_aborts_running_requests() {
    let mut state: ProducerState<&str> = ProducerState::new();
    state.start(1, "abort-1");
    state.start(2, "abort-2");
    assert_eq!(state.start(2, "abort-2b"), Some("abort-2"));
    assert_eq!(state.abort(1), Some("abort-1"));
    assert_eq!(state.abort(1), None);
    let (mut left, cause) = state.finish();
    left.sort();
    assert_eq!(left, vec![(2, "abort-2b")]);
    assert_eq!(cause, ShutdownType::Closed);
}

#[test]
fn producer_announces_shutdown_and_abort_only() {
    let mut state: ProducerState<&str> = ProducerState::new();
    assert!(matches!(
        state.step::<u8>(ProducerEvent::ShutdownRequested(ShutdownType::Shutdown), false),
        ProducerStep::Stop { cause: ShutdownType::Shutdown, farewell: Some(Message::Shutdown) }
    ));
    assert!(matches!(
        state.step::<u8>(ProducerEvent::SendFailed(ShutdownType::Aborted), false),
        ProducerStep::Stop { cause: ShutdownType::Aborted, farewell: Some(Message::Aborted) }
    ));
    assert!(matches!(
        state.step::<u8>(ProducerEvent::TransportClosed, false),
        ProducerStep::Stop { cause: ShutdownType::Closed, farewell: None }
    ));
    assert!(matches!(
        state.step::<u8>(ProducerEvent::ReceiveFailed(HandlingStrategy::Ignore), false),
        ProducerStep::Continue
    ));
    assert!(matches!(
        state.step::<u8>(ProducerEvent::ReceiveFailed(HandlingStrategy::Stop(ShutdownType::Timeout)), false),
        ProducerStep::Stop { cause: ShutdownType::Timeout, farewell: None }
    ));
    assert_eq!(state.finish().1, ShutdownType::Timeout);
}

#[test]
fn consumer_stops_for_what_producer_announces() {
    for cause in [ShutdownType::Closed, ShutdownType::Shutdown, ShutdownType::Aborted, ShutdownType::Timeout] {
        match farewell_message::<u8>(cause) {
            Some(message) => assert_eq!(stop_cause_of(&message), Some(cause)),
            None => assert!(cause == ShutdownType::Closed || cause == ShutdownType::Timeout),
        }
    }
    assert_eq!(stop_cause_of(&Message::Response { id: 1, response: 2u8 }), None);
}

#[test]
fn stop_latch_fires_once() {
    let mut latch = StopLatch::new();
    assert_eq!(latch.on_send_failed(HandlingStrategy::Ignore), None);
    assert_eq!(latch.on_send_failed(HandlingStrategy::Stop(ShutdownType::Closed)), Some(ShutdownType::Closed));
    assert_eq!(latch.on_send_failed(HandlingStrategy::Stop(ShutdownType::Shutdown)), None);
}

#[test]
fn only_response_failures_are_reported() {
    assert_eq!(reported_failure(&Message::Response { id: 12, response: "x" }), Some(12));
    assert_eq!(reported_failure(&Message::<&str>::Aborted), None);
    assert_eq!(reported_failure(&Message::<&str>::Shutdown), None);
}
