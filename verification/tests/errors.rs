use zzrpc::callback::{DefaultReceiveErrorCallback, DefaultSendErrorCallback, ReceiveErrorCallback, SendErrorCallback};
use zzrpc::{Error, HandlingStrategy, SendError, ShutdownType};

#[test]
fn shutdown_types_become_like_named_errors() {
    assert!(matches!(Error::<()>::from(ShutdownType::Closed), Error::Closed));
    assert!(matches!(Error::<()>::from(ShutdownType::Shutdown), Error::Shutdown));
    assert!(matches!(Error::<()>::from(ShutdownType::Aborted), Error::Aborted));
    assert!(matches!(Error::<()>::from(ShutdownType::Timeout), Error::Timeout));
}

#[test]
fn error_display_parts() {
    assert_eq!(Error::<u8>::Closed.display_parts(), ("transport closed", None));
    assert_eq!(Error::<u8>::Aborted.display_parts(), ("request was aborted", None));
    assert_eq!(Error::<u8>::Shutdown.display_parts(), ("producer/consumer was shutdown", None));
    assert_eq!(Error::<u8>::Timeout.display_parts(), ("producer/consumer timed out", None));
    assert_eq!(Error::<u8>::Dropped.display_parts(), ("consumer was dropped", None));
    assert_eq!(Error::<u8>::Transport(7).display_parts(), ("transport error: ", Some(&7)));
}

#[test]
fn default_send_callback_stops_on_closed_only() {
    let mut callback = DefaultSendErrorCallback {};
    assert_eq!(
        callback.on_send_error(3, SendError::<String>::Closed),
        HandlingStrategy::Stop(ShutdownType::Closed)
    );
    assert_eq!(
        callback.on_send_error(3, SendError::Other("broken pipe".to_string())),
        HandlingStrategy::Ignore
    );
}

#[test]
fn default_receive_callback_ignores() {
    let mut callback = DefaultReceiveErrorCallback {};
    assert_eq!(callback.on_receive_error("garbled".to_string()), HandlingStrategy::Ignore);
}

#[test]
fn closures_serve_as_callbacks() {
    let mut seen = Vec::new();
    let mut on_send = |id: usize, error: SendError<u8>| {
        seen.push(id);
        match error {
            SendError::Closed => HandlingStrategy::Stop(ShutdownType::Shutdown),
            SendError::Other(_) => HandlingStrategy::Ignore,
        }
    };
    assert_eq!(on_send.on_send_error(5, SendError::Closed), HandlingStrategy::Stop(ShutdownType::Shutdown));
    assert_eq!(on_send.on_send_error(6, SendError::Other(1)), HandlingStrategy::Ignore);
    assert_eq!(seen, vec![5, 6]);

    let mut on_receive = |_error: u8| HandlingStrategy::Stop(ShutdownType::Aborted);
    assert_eq!(on_receive.on_receive_error(0), HandlingStrategy::Stop(ShutdownType::Aborted));
}

#[test]
fn send_failures_become_request_errors() {
    assert!(matches!(Error::from_send_error(SendError::<u8>::Closed), Error::Closed));
    assert!(matches!(Error::from_send_error(SendError::Other(9u8)), Error::Transport(9)));
}
