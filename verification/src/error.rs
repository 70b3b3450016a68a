//! Errors, shutdown causes and error handling strategies.

use vstd::prelude::*;
use vstd::std_specs::convert::FromSpecImpl;

verus! {

/// Cause of producer/consumer shutdown.
#[derive(Debug, Clone, Copy, PartialEq, Eq, Structural)]
pub enum ShutdownType {
    /// Connection closed.
    Closed,
    /// Manual shutdown.
    Shutdown,
    /// Abort all requests.
    Aborted,
    /// Consumer/producer timed out.
    ///
    /// Consumer requests never receive [Error::Timeout] because of a producer
    /// timing out: a producer that times out sends no message, so its consumer
    /// sees the transport close instead.
    Timeout,
}

/// Send/receive error handling strategy.
#[derive(Debug, Clone, Copy, PartialEq, Eq, Structural)]
pub enum HandlingStrategy {
    /// Stop the producer/consumer simulating the given [ShutdownType].
    Stop(ShutdownType),
    /// Ignore the error (and keep running).
    Ignore,
}

/// RPC error.
#[derive(Debug, Clone)]
pub enum Error<TransportError> {
    /// Connection closed.
    Closed,
    /// Request was aborted by consumer/producer.
    Aborted,
    /// Consumer/producer was shut down.
    ///
    /// It may also be caused by the connection being closed before the
    /// consumer request was made.
    Shutdown,
    /// Consumer timed out.
    Timeout,
    /// Consumer was dropped before the request could complete.
    Dropped,
    /// Request message transport error.
    Transport(TransportError),
}

/// Error reported by a transport when a message could not be sent.
#[derive(Debug, Clone, PartialEq, Eq)]
pub enum SendError<Other> {
    /// The transport is closed.
    Closed,
    /// Another, transport specific error.
    Other(Other),
}

/// The error that a shutdown of the given type hands to the requests that
/// were still waiting.
pub open spec fn shutdown_error<E>(value: ShutdownType) -> Error<E> {
    match value {
        ShutdownType::Closed => Error::Closed,
        ShutdownType::Shutdown => Error::Shutdown,
        ShutdownType::Aborted => Error::Aborted,
        ShutdownType::Timeout => Error::Timeout,
    }
}

impl<TransportError> From<ShutdownType> for Error<TransportError> {
    fn from(value: ShutdownType) -> (r: Self) {
        match value {
            ShutdownType::Closed => Error::Closed,
            ShutdownType::Shutdown => Error::Shutdown,
            ShutdownType::Aborted => Error::Aborted,
            ShutdownType::Timeout => Error::Timeout,
        }
    }
}

impl<TransportError> FromSpecImpl<ShutdownType> for Error<TransportError> {
    open spec fn obeys_from_spec() -> bool {
        true
    }

    open spec fn from_spec(v: ShutdownType) -> Self {
        shutdown_error(v)
    }
}

/// The error a request gets when its message could not be sent.
pub open spec fn send_failure<E>(error: SendError<E>) -> Error<E> {
    match error {
        SendError::Closed => Error::Closed,
        SendError::Other(e) => Error::Transport(e),
    }
}

impl<TransportError> Error<TransportError> {
    /// The error a request gets when the transport failed to send its
    /// message: a closed transport, or the transport's own error.
    pub fn from_send_error(error: SendError<TransportError>) -> (r: Self)
        ensures
            r == send_failure(error),
    {
        match error {
            SendError::Closed => Error::Closed,
            SendError::Other(e) => Error::Transport(e),
        }
    }
}

/// The text that describes an error, without its transport error.
pub open spec fn error_text<E>(e: Error<E>) -> Seq<char> {
    match e {
        Error::Closed => "transport closed"@,
        Error::Aborted => "request was aborted"@,
        Error::Shutdown => "producer/consumer was shutdown"@,
        Error::Timeout => "producer/consumer timed out"@,
        Error::Dropped => "consumer was dropped"@,
        Error::Transport(_) => "transport error: "@,
    }
}

impl<TransportError> Error<TransportError> {
    /// The parts that the error is displayed from: a fixed text, followed,
    /// for a transport error, by that transport error itself.
    pub fn display_parts(&self) -> (r: (&'static str, Option<&TransportError>))
        ensures
            r.0@ == error_text(*self),
            r.1 == (match *self {
                Error::Transport(e) => Some(&e),
                _ => None,
            }),
    {
        match self {
            Error::Closed => ("transport closed", None),
            Error::Aborted => ("request was aborted", None),
            Error::Shutdown => ("producer/consumer was shutdown", None),
            Error::Timeout => ("producer/consumer timed out", None),
            Error::Dropped => ("consumer was dropped", None),
            Error::Transport(error) => ("transport error: ", Some(error)),
        }
    }
}

} // verus!
