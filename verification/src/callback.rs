//! Callbacks that decide what a producer or consumer does when its transport
//! reports an error.

use vstd::prelude::*;
use crate::error::{HandlingStrategy, SendError, ShutdownType};

verus! {

/// Callback called when a producer encounters an error while trying to send a
/// message through its transport.
///
/// It also receives [SendError::Closed] and should handle it (most likely by
/// returning [HandlingStrategy::Stop]).
pub trait SendErrorCallback<Error> {
    /// Handle a sending error.
    fn on_send_error(&mut self, request_id: usize, error: SendError<Error>) -> HandlingStrategy;
}

impl<T, Error> SendErrorCallback<Error> for T where
    T: FnMut(usize, SendError<Error>) -> HandlingStrategy,
 {
    fn on_send_error(&mut self, request_id: usize, error: SendError<Error>) -> (r: HandlingStrategy)
        ensures
            call_requires(*old(self), (request_id, error)) ==> call_ensures(*old(self), (request_id, error), r),
    {
        call_send_closure(self, request_id, error)
    }
}

/// Calls a user's closure (`FnMut::call_mut`) with a send error, and answers
/// what the closure answers. Only when the arguments meet the closure's
/// precondition (`call_requires`) is the answer stated to be one the
/// closure gives for them (`call_ensures`); otherwise nothing is stated.
/// Nothing is stated of the closure's captured state after the call.
#[verifier::external_body]
fn call_send_closure<F, Error>(f: &mut F, request_id: usize, error: SendError<Error>) -> (r: HandlingStrategy)
    where F: FnMut(usize, SendError<Error>) -> HandlingStrategy,
    ensures
        call_requires(*old(f), (request_id, error)) ==> call_ensures(*old(f), (request_id, error), r),
{
    f(request_id, error)
}

/// Calls a user's closure (`FnMut::call_mut`) with a receive error, and
/// answers what the closure answers. Only when the argument meets the
/// closure's precondition (`call_requires`) is the answer stated to be one
/// the closure gives for it (`call_ensures`); otherwise nothing is stated.
/// Nothing is stated of the closure's captured state after the call.
#[verifier::external_body]
fn call_receive_closure<F, Error>(f: &mut F, error: Error) -> (r: HandlingStrategy)
    where F: FnMut(Error) -> HandlingStrategy,
    ensures
        call_requires(*old(f), (error,)) ==> call_ensures(*old(f), (error,), r),
{
    f(error)
}

/// Callback called when a producer/consumer encounters an error while trying
/// to receive a message from its transport.
pub trait ReceiveErrorCallback<Error> {
    /// Handle a receiving error.
    fn on_receive_error(&mut self, error: Error) -> HandlingStrategy;
}

impl<T, Error> ReceiveErrorCallback<Error> for T where T: FnMut(Error) -> HandlingStrategy {
    fn on_receive_error(&mut self, error: Error) -> (r: HandlingStrategy)
        ensures
            call_requires(*old(self), (error,)) ==> call_ensures(*old(self), (error,), r),
    {
        call_receive_closure(self, error)
    }
}

/// What the default send error callback answers to an error.
pub open spec fn default_send_strategy<E>(error: SendError<E>) -> HandlingStrategy {
    match error {
        SendError::Closed => HandlingStrategy::Stop(ShutdownType::Closed),
        SendError::Other(_) => HandlingStrategy::Ignore,
    }
}

/// Default [SendErrorCallback]: it stops the producer with
/// [ShutdownType::Closed] when the transport is closed and ignores every
/// other error.
#[derive(Debug)]
pub struct DefaultSendErrorCallback {}

impl<Error> SendErrorCallback<Error> for DefaultSendErrorCallback {
    fn on_send_error(&mut self, request_id: usize, error: SendError<Error>) -> (r: HandlingStrategy)
        ensures
            r == default_send_strategy(error),
    {
        match error {
            SendError::Closed => HandlingStrategy::Stop(ShutdownType::Closed),
            SendError::Other(_) => HandlingStrategy::Ignore,
        }
    }
}

/// Default [ReceiveErrorCallback]: it ignores every error.
#[derive(Debug)]
pub struct DefaultReceiveErrorCallback {}

impl<Error> ReceiveErrorCallback<Error> for DefaultReceiveErrorCallback {
    fn on_receive_error(&mut self, error: Error) -> (r: HandlingStrategy)
        ensures
            r == HandlingStrategy::Ignore,
    {
        HandlingStrategy::Ignore
    }
}

} // verus!
