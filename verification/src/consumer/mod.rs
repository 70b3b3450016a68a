//! Consumer related functionality: the messages a consumer sends, the
//! bookkeeping of its pending requests and the life cycle of its request
//! futures.

use vstd::prelude::*;


pub mod request;
pub mod state;


pub use request::{Aborter, Stream, StreamRequest, ValueRequest};
pub use state::{ConsumerEvent, ConsumerState, PendingRequest, ResultSender};

verus! {

/// Consumer message payload.
#[derive(Debug, Clone)]
pub enum Payload<Request> {
    /// Request arguments.
    Request(Request),
    /// Abort request.
    Abort,
}

/// Consumer message.
#[derive(Debug, Clone)]
pub struct Message<Request> {
    /// Request id.
    pub id: usize,
    /// Message payload.
    pub payload: Payload<Request>,
}

/// The message that asks the producer to abort the request with the given id.
pub fn abort_message<Request>(id: usize) -> (r: Message<Request>)
    ensures
        r.id == id,
        r.payload is Abort,
{
    Message { id, payload: Payload::Abort }
}

/// The message that carries a request to the producer.
pub fn request_message<Request>(id: usize, request: Request) -> (r: Message<Request>)
    ensures
        r.id == id,
        r.payload == Payload::Request(request),
{
    Message { id, payload: Payload::Request(request) }
}

} // verus!
