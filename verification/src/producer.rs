//! Producer related functionality: the messages a producer sends and the
//! decisions of its main loop.

use vstd::prelude::*;
use crate::error::{HandlingStrategy, ShutdownType};
use crate::table::{IdTable, slots_map, unique_ids};

verus! {

/// Producer message.
#[derive(Debug, Clone)]
pub enum Message<Response> {
    /// Response to request.
    Response {
        /// Request id.
        id: usize,
        /// Response value.
        response: Response,
    },
    /// Producer was shut down with [ShutdownType::Aborted].
    Aborted,
    /// Producer was shut down with [ShutdownType::Shutdown].
    Shutdown,
}

/// What a producer sends in answer to a streaming request.
#[derive(Debug, Clone)]
pub enum StreamResponse<Item> {
    /// The stream is open: items follow.
    Open,
    /// One item of the stream.
    Item(Item),
    /// The stream has ended.
    Closed,
}

/// The message a producer sends when it stops for the given cause, if any.
pub open spec fn farewell<R>(cause: ShutdownType) -> Option<Message<R>> {
    match cause {
        ShutdownType::Shutdown => Some(Message::Shutdown),
        ShutdownType::Aborted => Some(Message::Aborted),
        _ => None,
    }
}

/// The message a producer sends when it stops for the given cause: only a
/// manual shutdown and an abort of all requests are announced.
pub fn farewell_message<R>(cause: ShutdownType) -> (r: Option<Message<R>>)
    ensures
        r == farewell::<R>(cause),
        cause == ShutdownType::Shutdown ==> r == Some(Message::<R>::Shutdown),
        cause == ShutdownType::Aborted ==> r == Some(Message::<R>::Aborted),
        cause == ShutdownType::Closed ==> r is None,
        cause == ShutdownType::Timeout ==> r is None,
{
    match cause {
        ShutdownType::Shutdown => Some(Message::Shutdown),
        ShutdownType::Aborted => Some(Message::Aborted),
        _ => None,
    }
}

/// The cause for which a consumer stops on a message of its producer, if it
/// stops.
pub open spec fn stop_cause<R>(message: Message<R>) -> Option<ShutdownType> {
    match message {
        Message::Response { .. } => None,
        Message::Aborted => Some(ShutdownType::Aborted),
        Message::Shutdown => Some(ShutdownType::Shutdown),
    }
}

/// The cause for which a consumer stops on a message of its producer: the
/// producer's announcement of an abort or of a shutdown; a response stops
/// nothing.
pub fn stop_cause_of<R>(message: &Message<R>) -> (r: Option<ShutdownType>)
    ensures
        r == stop_cause(*message),
{
    match message {
        Message::Response { .. } => None,
        Message::Aborted => Some(ShutdownType::Aborted),
        Message::Shutdown => Some(ShutdownType::Shutdown),
    }
}

/// A consumer stops for the very cause its producer announced, and a
/// producer announces only a manual shutdown or an abort of all requests: a
/// consumer never learns of its producer's timeout or of a closed transport
/// from a message.
pub proof fn lemma_farewell_stops_consumer<R>(cause: ShutdownType)
    ensures
        farewell::<R>(cause) matches Some(m) ==> stop_cause(m) == Some(cause),
        farewell::<R>(cause) is Some <==> (cause == ShutdownType::Shutdown || cause == ShutdownType::Aborted),
{
}

/// A producer stops for exactly the cause it is given — by its shutdown
/// future, its receive error callback or its send error callback — and a
/// closed transport stops it as closed; it announces a manual shutdown with
/// [Message::Shutdown], an abort of all requests with [Message::Aborted],
/// and nothing else. A timeout stops it, as timed out, exactly when one is
/// configured and no request runs.
pub proof fn lemma_producer_stops_for_given_cause<R>(c: ShutdownType, timeout_configured: bool, busy: bool)
    ensures
        producer_stop_cause(ProducerEvent::ShutdownRequested(c), timeout_configured, busy) == Some(c),
        producer_stop_cause(ProducerEvent::ReceiveFailed(HandlingStrategy::Stop(c)), timeout_configured, busy) == Some(c),
        producer_stop_cause(ProducerEvent::SendFailed(c), timeout_configured, busy) == Some(c),
        producer_stop_cause(ProducerEvent::TransportClosed, timeout_configured, busy) == Some(ShutdownType::Closed),
        producer_stop_cause(ProducerEvent::ReceiveFailed(HandlingStrategy::Ignore), timeout_configured, busy) is None,
        producer_stop_cause(ProducerEvent::TimedOut, timeout_configured, busy) is Some <==> timeout_configured && !busy,
        producer_stop_cause(ProducerEvent::TimedOut, timeout_configured, busy) is Some
            ==> producer_stop_cause(ProducerEvent::TimedOut, timeout_configured, busy) == Some(ShutdownType::Timeout),
        farewell::<R>(ShutdownType::Shutdown) == Some(Message::<R>::Shutdown),
        farewell::<R>(ShutdownType::Aborted) == Some(Message::<R>::Aborted),
        farewell::<R>(ShutdownType::Closed) is None,
        farewell::<R>(ShutdownType::Timeout) is None,
{
}

/// An event of a producer's main loop, other than a message from the consumer.
#[derive(Debug, Clone, Copy, PartialEq, Eq, Structural)]
pub enum ProducerEvent {
    /// The transport has no more messages.
    TransportClosed,
    /// Receiving failed, and the receive error callback chose this strategy.
    ReceiveFailed(HandlingStrategy),
    /// The producer's timeout elapsed.
    TimedOut,
    /// Sending failed, and the send error callback chose to stop for this cause.
    SendFailed(ShutdownType),
    /// The configured shutdown future resolved with this cause.
    ShutdownRequested(ShutdownType),
}

/// What a producer's main loop does after an event.
#[derive(Debug)]
pub enum ProducerStep<R> {
    /// Keep running.
    Continue,
    /// Keep running, and start the timeout over.
    ResetTimeout,
    /// Stop, after sending the farewell message if there is one.
    Stop { cause: ShutdownType, farewell: Option<Message<R>> },
}

/// The cause for which a producer stops after an event, if it stops.
pub open spec fn producer_stop_cause(event: ProducerEvent, timeout_configured: bool, busy: bool) -> Option<ShutdownType> {
    match event {
        ProducerEvent::TransportClosed => Some(ShutdownType::Closed),
        ProducerEvent::ReceiveFailed(HandlingStrategy::Stop(cause)) => Some(cause),
        ProducerEvent::ReceiveFailed(HandlingStrategy::Ignore) => None,
        ProducerEvent::TimedOut => if timeout_configured && !busy { Some(ShutdownType::Timeout) } else { None },
        ProducerEvent::SendFailed(cause) => Some(cause),
        ProducerEvent::ShutdownRequested(cause) => Some(cause),
    }
}

/// The state of a producer: the abort switch of each running request, by
/// request id, and the cause it stopped for. `A` is the type of the switches.
#[derive(Debug)]
pub struct ProducerState<A> {
    aborters: IdTable<A>,
    outcome: ShutdownType,
}

impl<A> ProducerState<A> {
    /// The abort switches of the running requests.
    pub closed spec fn running(&self) -> Map<usize, A> {
        self.aborters@
    }

    /// The cause the producer reports when it ends.
    pub closed spec fn outcome(&self) -> ShutdownType {
        self.outcome
    }

    /// The state is well formed.
    pub closed spec fn wf(&self) -> bool {
        self.aborters.wf()
    }

    /// A producer with no running request; unless told otherwise it ends
    /// because its transport closed.
    pub fn new() -> (r: Self)
        ensures
            r.wf(),
            r.running() == Map::<usize, A>::empty(),
            r.outcome() == ShutdownType::Closed,
    {
        ProducerState { aborters: IdTable::new(), outcome: ShutdownType::Closed }
    }

    /// Records a request that starts running with the given abort switch, and
    /// hands back the switch of an earlier request with the same id, which
    /// is thereby dropped.
    pub fn start(&mut self, id: usize, aborter: A) -> (r: Option<A>)
        requires
            old(self).wf(),
        ensures
            final(self).wf(),
            final(self).running() == old(self).running().insert(id, aborter),
            final(self).outcome() == old(self).outcome(),
            r == (if old(self).running().contains_key(id) { Some(old(self).running()[id]) } else { None::<A> }),
    {
        self.aborters.insert(id, aborter)
    }

    /// The consumer asked to abort the request with the given id: hands out
    /// its abort switch, to fire, and forgets it.
    pub fn abort(&mut self, id: usize) -> (r: Option<A>)
        requires
            old(self).wf(),
        ensures
            final(self).wf(),
            final(self).running() == old(self).running().remove(id),
            final(self).outcome() == old(self).outcome(),
            r == (if old(self).running().contains_key(id) { Some(old(self).running()[id]) } else { None::<A> }),
    {
        self.aborters.remove(id)
    }

    /// The request with the given id has answered: forgets its abort switch.
    pub fn finished(&mut self, id: usize) -> (r: Option<A>)
        requires
            old(self).wf(),
        ensures
            final(self).wf(),
            final(self).running() == old(self).running().remove(id),
            final(self).outcome() == old(self).outcome(),
            r == (if old(self).running().contains_key(id) { Some(old(self).running()[id]) } else { None::<A> }),
    {
        self.aborters.remove(id)
    }

    /// Decides what the producer's main loop does after an event. A timeout
    /// stops the producer only when no request is running; otherwise the
    /// timeout starts over.
    pub fn step<R>(&mut self, event: ProducerEvent, timeout_configured: bool) -> (r: ProducerStep<R>)
        requires
            old(self).wf(),
        ensures
            final(self).wf(),
            final(self).running() == old(self).running(),
            match producer_stop_cause(event, timeout_configured, !old(self).running().is_empty()) {
                Some(cause) => {
                    &&& r == ProducerStep::Stop { cause, farewell: farewell::<R>(cause) }
                    &&& final(self).outcome() == cause
                },
                None => {
                    &&& final(self).outcome() == old(self).outcome()
                    &&& if event == ProducerEvent::TimedOut && timeout_configured {
                        r is ResetTimeout
                    } else {
                        r is Continue
                    }
                },
            },
            event == ProducerEvent::TransportClosed ==> (r matches ProducerStep::Stop { cause, farewell }
                && cause == ShutdownType::Closed && farewell is None && final(self).outcome() == ShutdownType::Closed),
            event matches ProducerEvent::ShutdownRequested(c) ==> (r matches ProducerStep::Stop { cause, .. }
                && cause == c && final(self).outcome() == c),
            event matches ProducerEvent::SendFailed(c) ==> (r matches ProducerStep::Stop { cause, .. }
                && cause == c && final(self).outcome() == c),
            event matches ProducerEvent::ReceiveFailed(HandlingStrategy::Stop(c)) ==> (r matches ProducerStep::Stop { cause, .. }
                && cause == c && final(self).outcome() == c),
            event == ProducerEvent::ReceiveFailed(HandlingStrategy::Ignore) ==> r is Continue && final(self).outcome() == old(self).outcome(),
            r matches ProducerStep::Stop { cause, farewell } ==> (
                (cause == ShutdownType::Shutdown ==> farewell == Some(Message::<R>::Shutdown))
                && (cause == ShutdownType::Aborted ==> farewell == Some(Message::<R>::Aborted))
                && (cause == ShutdownType::Closed || cause == ShutdownType::Timeout ==> farewell is None)
            ),
            event == ProducerEvent::TimedOut && timeout_configured && old(self).running().is_empty()
                ==> (r matches ProducerStep::Stop { cause, .. } && cause == ShutdownType::Timeout),
            event == ProducerEvent::TimedOut && timeout_configured && !old(self).running().is_empty() ==> r is ResetTimeout,
            event == ProducerEvent::TimedOut && !timeout_configured ==> r is Continue,
    {
        let cause = match event {
            ProducerEvent::TransportClosed => Some(ShutdownType::Closed),
            ProducerEvent::ReceiveFailed(HandlingStrategy::Stop(cause)) => Some(cause),
            ProducerEvent::ReceiveFailed(HandlingStrategy::Ignore) => None,
            ProducerEvent::TimedOut => {
                if !timeout_configured {
                    None
                } else if self.aborters.is_empty() {
                    Some(ShutdownType::Timeout)
                } else {
                    return ProducerStep::ResetTimeout;
                }
            },
            ProducerEvent::SendFailed(cause) => Some(cause),
            ProducerEvent::ShutdownRequested(cause) => Some(cause),
        };
        proof {
            self.aborters.lemma_finite();
            if self.aborters@.dom() =~= Set::<usize>::empty() {
                assert(self.aborters@ =~= Map::<usize, A>::empty());
            }
        }
        match cause {
            Some(cause) => {
                self.outcome = cause;
                ProducerStep::Stop { cause, farewell: farewell_message(cause) }
            },
            None => ProducerStep::Continue,
        }
    }

    /// The producer has stopped: hands out every abort switch still held, to
    /// fire, and the cause the producer ends with.
    pub fn finish(&mut self) -> (r: (Vec<(usize, A)>, ShutdownType))
        requires
            old(self).wf(),
        ensures
            final(self).wf(),
            final(self).running() == Map::<usize, A>::empty(),
            unique_ids(r.0@),
            slots_map(r.0@) == old(self).running(),
            r.1 == old(self).outcome(),
    {
        (self.aborters.take_all(), self.outcome)
    }
}

/// Of the maps of running requests that the producer's operations produce:
/// after an id is removed (as `abort` and `finished` do), no switch is held
/// for it, so a later `abort` or `finished` for that id hands out nothing;
/// the switches of the other ids stay as they were.
pub proof fn lemma_switch_removed<A>(running: Map<usize, A>, id: usize, other: usize)
    requires
        other != id,
    ensures
        !running.remove(id).contains_key(id),
        running.remove(id).contains_key(other) == running.contains_key(other),
        running.contains_key(other) ==> running.remove(id)[other] == running[other],
{
}

/// A switch that stops a producer at most once: the first failure to send
/// for which the send error callback chooses to stop.
#[derive(Debug)]
pub struct StopLatch {
    armed: bool,
}

impl StopLatch {
    /// Whether the latch can still stop the producer.
    pub closed spec fn armed(&self) -> bool {
        self.armed
    }

    /// A latch that has not stopped anything yet.
    pub fn new() -> (r: Self)
        ensures
            r.armed(),
    {
        StopLatch { armed: true }
    }

    /// Sending a message failed, and the callback chose this strategy, if it
    /// was asked: it is asked only about responses. Returns the cause to
    /// stop for, the first time a stop is chosen.
    pub fn on_send_failed(&mut self, strategy: HandlingStrategy) -> (r: Option<ShutdownType>)
        ensures
            match strategy {
                HandlingStrategy::Stop(cause) => {
                    &&& r == (if old(self).armed() { Some(cause) } else { None::<ShutdownType> })
                    &&& !final(self).armed()
                },
                HandlingStrategy::Ignore => r is None && final(self).armed() == old(self).armed(),
            },
    {
        match strategy {
            HandlingStrategy::Stop(cause) => {
                if self.armed {
                    self.armed = false;
                    Some(cause)
                } else {
                    None
                }
            },
            HandlingStrategy::Ignore => None,
        }
    }
}

/// The request id that a failure to send the given message is reported with
/// to the send error callback; failures to send anything but a response are
/// not reported.
pub fn reported_failure<R>(message: &Message<R>) -> (r: Option<usize>)
    ensures
        r == (match *message {
            Message::Response { id, .. } => Some(id),
            _ => None,
        }),
{
    match message {
        Message::Response { id, .. } => Some(*id),
        _ => None,
    }
}

} // verus!
