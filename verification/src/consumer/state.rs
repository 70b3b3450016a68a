//! The bookkeeping of a consumer: which requests wait for the producer, what
//! each answer of the producer is delivered to, and what a shutdown reports.
//!
//! The channel ends that deliver results to the request futures are type
//! parameters: `V` answers a value request, `O` tells a streaming request
//! that its stream is open, `S` carries the items of a stream.

use vstd::prelude::*;
use crate::error::{HandlingStrategy, ShutdownType};
use crate::table::{IdTable, slots_map, unique_ids};

verus! {

broadcast use vstd::set::group_set_axioms;

/// What a request future hands to the consumer together with its message:
/// where the producer's answer goes.
#[derive(Debug)]
pub enum ResultSender<V, O, S> {
    /// A value request: the answer goes to this sender.
    Value(V),
    /// A streaming request: the opening of the stream is reported to
    /// `result_sender`, its items go to `values_sender`.
    Stream { result_sender: O, values_sender: S },
    /// The message aborts a request.
    Abort,
}

/// A request that the consumer has sent and keeps track of.
#[derive(Debug)]
pub enum PendingRequest<V, O, S> {
    /// A value request of the given method.
    Value { method: usize, sender: V },
    /// A streaming request of the given method; `opener` is taken when the
    /// producer reports the stream open.
    Stream { method: usize, opener: Option<O>, items: S },
}

/// The request still waits for the producer's first answer.
pub open spec fn awaiting<V, O, S>(p: PendingRequest<V, O, S>) -> bool {
    match p {
        PendingRequest::Value { .. } => true,
        PendingRequest::Stream { opener, .. } => opener is Some,
    }
}

/// The method a pending request belongs to.
pub open spec fn method_of<V, O, S>(p: PendingRequest<V, O, S>) -> usize {
    match p {
        PendingRequest::Value { method, .. } => method,
        PendingRequest::Stream { method, .. } => method,
    }
}

/// The ids of the requests that still wait for the producer's first answer.
pub open spec fn awaiting_ids<V, O, S>(m: Map<usize, PendingRequest<V, O, S>>) -> Set<usize> {
    Set::new(|id: usize| m.contains_key(id) && awaiting(m[id]))
}

/// What a consumer is told about its pending requests when it shuts down: for
/// each request that still waits, the sender that must report the error.
#[derive(Debug)]
pub enum Notice<V, O> {
    /// A value request.
    Value(V),
    /// A streaming request whose stream was not opened yet.
    Stream(O),
}

/// The notice a pending request gets at shutdown.
pub open spec fn notice_of<V, O, S>(p: PendingRequest<V, O, S>) -> Notice<V, O> {
    match p {
        PendingRequest::Value { sender, .. } => Notice::Value(sender),
        PendingRequest::Stream { opener, .. } => Notice::Stream(opener.unwrap()),
    }
}

/// The notices that a shutdown hands out for the given requests: one for each
/// request that still waits.
pub open spec fn shutdown_notices<V, O, S>(m: Map<usize, PendingRequest<V, O, S>>) -> Map<usize, Notice<V, O>> {
    Map::new(|id: usize| awaiting_ids(m).contains(id), |id: usize| notice_of(m[id]))
}

/// Of a finite map: its waiting ids form a finite set, no larger than it.
pub proof fn lemma_awaiting_finite<V, O, S>(m: Map<usize, PendingRequest<V, O, S>>)
    requires
        m.dom().finite(),
    ensures
        awaiting_ids(m).finite(),
        awaiting_ids(m).len() <= m.dom().len(),
{
    assert(awaiting_ids(m).subset_of(m.dom()));
    vstd::set_lib::lemma_len_subset(awaiting_ids(m), m.dom());
}

/// Holding a request for an id changes the waiting ids at that id only.
pub proof fn lemma_awaiting_insert<V, O, S>(m: Map<usize, PendingRequest<V, O, S>>, id: usize, p: PendingRequest<V, O, S>)
    ensures
        awaiting_ids(m.insert(id, p)) == (if awaiting(p) { awaiting_ids(m).insert(id) } else { awaiting_ids(m).remove(id) }),
{
    let l = awaiting_ids(m.insert(id, p));
    let r = if awaiting(p) { awaiting_ids(m).insert(id) } else { awaiting_ids(m).remove(id) };
    assert(l =~= r);
}

/// Dropping an id drops it from the waiting ids.
pub proof fn lemma_awaiting_remove<V, O, S>(m: Map<usize, PendingRequest<V, O, S>>, id: usize)
    ensures
        awaiting_ids(m.remove(id)) == awaiting_ids(m).remove(id),
{
    assert(awaiting_ids(m.remove(id)) =~= awaiting_ids(m).remove(id));
}

/// The sender of the value request of the given id and method, if the
/// consumer keeps one.
pub open spec fn value_request<V, O, S>(m: Map<usize, PendingRequest<V, O, S>>, id: usize, method: usize) -> Option<V> {
    if m.contains_key(id) {
        match m[id] {
            PendingRequest::Value { method: mm, sender } => if mm == method { Some(sender) } else { None },
            _ => None,
        }
    } else {
        None
    }
}

/// The items sender of the streaming request of the given id and method, if
/// the consumer keeps one.
pub open spec fn stream_request<V, O, S>(m: Map<usize, PendingRequest<V, O, S>>, id: usize, method: usize) -> Option<S> {
    if m.contains_key(id) {
        match m[id] {
            PendingRequest::Stream { method: mm, items, .. } => if mm == method { Some(items) } else { None },
            _ => None,
        }
    } else {
        None
    }
}

/// The opener of the streaming request of the given id and method, if the
/// consumer keeps one whose stream was not reported open yet.
pub open spec fn unopened_stream<V, O, S>(m: Map<usize, PendingRequest<V, O, S>>, id: usize, method: usize) -> Option<O> {
    if m.contains_key(id) {
        match m[id] {
            PendingRequest::Stream { method: mm, opener: Some(o), .. } => if mm == method { Some(o) } else { None },
            _ => None,
        }
    } else {
        None
    }
}

/// Of the request maps that the consumer's operations produce: after a value
/// request is held for an id (as `record_sent` does for a sent value
/// request), `value_request` — what `take_value_sender` hands out — finds
/// the very sender it was held with; after the id is removed (as
/// `take_value_sender` and an abort do), it finds none.
pub proof fn lemma_value_request_lookup<V, O, S>(m: Map<usize, PendingRequest<V, O, S>>, id: usize, method: usize, v: V)
    ensures
        value_request(m.insert(id, PendingRequest::Value { method, sender: v }), id, method) == Some(v),
        value_request(m.remove(id), id, method) is None,
{
}

/// Of the request maps that the consumer's operations produce: after a
/// stream is held with its opener (as `record_sent` does), `unopened_stream`
/// — what `take_opener` hands out — finds that opener; after it is held
/// again without one (as `take_opener` does), it finds none while
/// `stream_request` — what `items_sender` hands out — still finds the same
/// items sender; after the id is removed (as `close_stream` does), neither
/// finds anything.
pub proof fn lemma_stream_request_lookup<V, O, S>(m: Map<usize, PendingRequest<V, O, S>>, id: usize, method: usize, o: O, s: S)
    ensures
        unopened_stream(m.insert(id, PendingRequest::<V, O, S>::Stream { method, opener: Some(o), items: s }), id, method) == Some(o),
        unopened_stream(m.insert(id, PendingRequest::<V, O, S>::Stream { method, opener: None, items: s }), id, method) is None,
        stream_request(m.insert(id, PendingRequest::<V, O, S>::Stream { method, opener: None, items: s }), id, method) == Some(s),
        stream_request(m.remove(id), id, method) is None,
{
}

/// An event of a consumer's main loop, other than a message to deliver.
#[derive(Debug, Clone, Copy, PartialEq, Eq, Structural)]
pub enum ConsumerEvent {
    /// The transport has no more messages.
    TransportClosed,
    /// Receiving failed, and the receive error callback chose this strategy.
    ReceiveFailed(HandlingStrategy),
    /// The producer announced its shutdown with this cause.
    ProducerStopped(ShutdownType),
    /// The consumer's timeout elapsed.
    TimedOut,
    /// The configured shutdown future resolved with this cause.
    ShutdownRequested(ShutdownType),
    /// The consumer handle was dropped.
    Dropped,
}

/// What a consumer's main loop does after an event.
#[derive(Debug)]
pub enum ConsumerStep<V, O> {
    /// Keep running.
    Continue,
    /// Stop: each notice reports the error made from the cause.
    Stop { cause: ShutdownType, notices: Vec<(usize, Notice<V, O>)> },
    /// Stop without reporting anything: the consumer itself is gone.
    Exit,
}

/// The cause for which a consumer stops after an event, if it stops.
pub open spec fn consumer_stop_cause(event: ConsumerEvent, timeout_configured: bool, idle: bool) -> Option<ShutdownType> {
    match event {
        ConsumerEvent::TransportClosed => Some(ShutdownType::Closed),
        ConsumerEvent::ReceiveFailed(HandlingStrategy::Stop(cause)) => Some(cause),
        ConsumerEvent::ReceiveFailed(HandlingStrategy::Ignore) => None,
        ConsumerEvent::ProducerStopped(cause) => Some(cause),
        ConsumerEvent::TimedOut => if timeout_configured && !idle { Some(ShutdownType::Timeout) } else { None },
        ConsumerEvent::ShutdownRequested(cause) => Some(cause),
        ConsumerEvent::Dropped => None,
    }
}

/// The cause for which a consumer stops after an event, given whether a
/// timeout is configured and whether the consumer is idle: a timeout stops
/// it only while requests wait; a dropped consumer just exits.
pub fn stop_cause(event: ConsumerEvent, timeout_configured: bool, idle: bool) -> (r: Option<ShutdownType>)
    ensures
        r == consumer_stop_cause(event, timeout_configured, idle),
        event == ConsumerEvent::TransportClosed ==> r == Some(ShutdownType::Closed),
        event matches ConsumerEvent::ReceiveFailed(HandlingStrategy::Stop(c)) ==> r == Some(c),
        event == ConsumerEvent::ReceiveFailed(HandlingStrategy::Ignore) ==> r is None,
        event matches ConsumerEvent::ProducerStopped(c) ==> r == Some(c),
        event matches ConsumerEvent::ShutdownRequested(c) ==> r == Some(c),
        event == ConsumerEvent::TimedOut ==> (r is Some <==> timeout_configured && !idle),
        event == ConsumerEvent::TimedOut && r is Some ==> r == Some(ShutdownType::Timeout),
        event == ConsumerEvent::Dropped ==> r is None,
{
    match event {
        ConsumerEvent::TransportClosed => Some(ShutdownType::Closed),
        ConsumerEvent::ReceiveFailed(HandlingStrategy::Stop(cause)) => Some(cause),
        ConsumerEvent::ReceiveFailed(HandlingStrategy::Ignore) => None,
        ConsumerEvent::ProducerStopped(cause) => Some(cause),
        ConsumerEvent::TimedOut => if timeout_configured && !idle {
            Some(ShutdownType::Timeout)
        } else {
            None
        },
        ConsumerEvent::ShutdownRequested(cause) => Some(cause),
        ConsumerEvent::Dropped => None,
    }
}

/// A consumer stops for exactly the cause it is given: the cause its
/// producer announced, the cause its shutdown future gave, the cause its
/// receive error callback chose; a closed transport stops it as closed. An
/// ignored receive error and a dropped consumer stop it for no cause, and a
/// timeout stops it, as timed out, exactly when one is configured and
/// requests wait.
pub proof fn lemma_consumer_stops_for_given_cause(c: ShutdownType, timeout_configured: bool, idle: bool)
    ensures
        consumer_stop_cause(ConsumerEvent::ProducerStopped(c), timeout_configured, idle) == Some(c),
        consumer_stop_cause(ConsumerEvent::ShutdownRequested(c), timeout_configured, idle) == Some(c),
        consumer_stop_cause(ConsumerEvent::ReceiveFailed(HandlingStrategy::Stop(c)), timeout_configured, idle) == Some(c),
        consumer_stop_cause(ConsumerEvent::TransportClosed, timeout_configured, idle) == Some(ShutdownType::Closed),
        consumer_stop_cause(ConsumerEvent::ReceiveFailed(HandlingStrategy::Ignore), timeout_configured, idle) is None,
        consumer_stop_cause(ConsumerEvent::Dropped, timeout_configured, idle) is None,
        consumer_stop_cause(ConsumerEvent::TimedOut, timeout_configured, idle) is Some <==> timeout_configured && !idle,
        consumer_stop_cause(ConsumerEvent::TimedOut, timeout_configured, idle) is Some
            ==> consumer_stop_cause(ConsumerEvent::TimedOut, timeout_configured, idle) == Some(ShutdownType::Timeout),
{
}

/// The requests of a consumer that wait for the producer.
#[derive(Debug)]
pub struct ConsumerState<V, O, S> {
    pending: usize,
    requests: IdTable<PendingRequest<V, O, S>>,
}

impl<V, O, S> ConsumerState<V, O, S> {
    /// The number of requests counted as waiting for a first answer.
    pub closed spec fn pending(&self) -> nat {
        self.pending as nat
    }

    /// The requests the consumer keeps track of, by id.
    pub closed spec fn requests(&self) -> Map<usize, PendingRequest<V, O, S>> {
        self.requests@
    }

    /// The state is well formed: its table holds each id once, and the
    /// counter counts at least the requests that wait.
    pub closed spec fn wf(&self) -> bool {
        &&& self.requests.wf()
        &&& self.requests@.dom().finite()
        &&& self.pending >= awaiting_ids(self.requests@).len()
    }

    /// The counter counts exactly the requests that wait.
    pub open spec fn exact(&self) -> bool {
        self.pending() == awaiting_ids(self.requests()).len()
    }

    /// A consumer with no request.
    pub fn new() -> (r: Self)
        ensures
            r.wf(),
            r.pending() == 0,
            r.requests() == Map::<usize, PendingRequest<V, O, S>>::empty(),
            r.exact(),
    {
        let r = ConsumerState { pending: 0, requests: IdTable::new() };
        proof {
            assert(awaiting_ids(r.requests@) =~= Set::<usize>::empty());
        }
        r
    }

    /// The number of requests counted as waiting for a first answer.
    pub fn pending_count(&self) -> (r: usize)
        ensures
            r == self.pending(),
    {
        self.pending
    }

    /// Whether no request waits for a first answer.
    pub fn idle(&self) -> (r: bool)
        requires
            self.wf(),
        ensures
            r == (self.pending() == 0),
            r ==> awaiting_ids(self.requests()) == Set::<usize>::empty(),
            self.exact() ==> (r <==> awaiting_ids(self.requests()) == Set::<usize>::empty()),
    {
        proof {
            lemma_awaiting_finite(self.requests@);
            if self.pending == 0 {
                assert(awaiting_ids(self.requests@) =~= Set::<usize>::empty());
            }
        }
        self.pending == 0
    }

    /// Records what became of a message that a request future handed to the
    /// consumer, once the consumer tried to send it to the producer.
    ///
    /// A request that could not be sent is handed back, for its sender to
    /// report the error; one that was sent is kept, waiting. An abort drops
    /// the request of that id and method, sent or not, and hands it back.
    pub fn record_sent(&mut self, id: usize, method: usize, sender: ResultSender<V, O, S>, sent: bool)
        -> (r: Recorded<V, O, S>)
        requires
            old(self).wf(),
            old(self).pending() < usize::MAX,
        ensures
            final(self).wf(),
            match sender {
                ResultSender::Abort => {
                    let found = old(self).requests().contains_key(id) && method_of(old(self).requests()[id]) == method;
                    &&& r == (if found { Recorded::Forgotten(Some(old(self).requests()[id])) } else { Recorded::<V, O, S>::Forgotten(None) })
                    &&& final(self).requests() == (if found { old(self).requests().remove(id) } else { old(self).requests() })
                    &&& final(self).pending() == (if found && awaiting(old(self).requests()[id]) { old(self).pending() - 1 } else { old(self).pending() as int })
                },
                ResultSender::Value(v) => if sent {
                    &&& r == Recorded::<V, O, S>::Kept
                    &&& final(self).requests() == old(self).requests().insert(id, PendingRequest::Value { method, sender: v })
                    &&& final(self).pending() == old(self).pending() + 1
                } else {
                    &&& r == Recorded::Rejected(sender)
                    &&& final(self).requests() == old(self).requests()
                    &&& final(self).pending() == old(self).pending()
                },
                ResultSender::Stream { result_sender, values_sender } => if sent {
                    &&& r == Recorded::<V, O, S>::Kept
                    &&& final(self).requests() == old(self).requests().insert(id, PendingRequest::Stream { method, opener: Some(result_sender), items: values_sender })
                    &&& final(self).pending() == old(self).pending() + 1
                } else {
                    &&& r == Recorded::Rejected(sender)
                    &&& final(self).requests() == old(self).requests()
                    &&& final(self).pending() == old(self).pending()
                },
            },
            old(self).exact() && (sender is Abort || !old(self).requests().contains_key(id)) ==> final(self).exact(),
    {
        let ghost m0 = self.requests@;
        proof {
            lemma_awaiting_finite(m0);
        }
        match sender {
            ResultSender::Abort => {
                let found = match self.requests.get(id) {
                    Some(p) => match p {
                        PendingRequest::Value { method: m, .. } => *m == method,
                        PendingRequest::Stream { method: m, .. } => *m == method,
                    },
                    None => false,
                };
                if found {
                    let removed = self.requests.remove(id);
                    proof {
                        lemma_awaiting_remove(m0, id);
                    }
                    match removed {
                        Some(p) => {
                            let waiting = match &p {
                                PendingRequest::Value { .. } => true,
                                PendingRequest::Stream { opener, .. } => opener.is_some(),
                            };
                            if waiting {
                                assert(awaiting_ids(m0).contains(id));
                                self.pending = self.pending - 1;
                            }
                            proof {
                                self.requests.lemma_finite();
                            }
                            Recorded::Forgotten(Some(p))
                        },
                        None => Recorded::Forgotten(None),
                    }
                } else {
                    Recorded::Forgotten(None)
                }
            },
            ResultSender::Value(v) => {
                if sent {
                    let _ = self.requests.insert(id, PendingRequest::Value { method, sender: v });
                    self.pending = self.pending + 1;
                    proof {
                        self.requests.lemma_finite();
                        lemma_awaiting_insert(m0, id, PendingRequest::Value { method, sender: v });
                    }
                    Recorded::Kept
                } else {
                    Recorded::Rejected(ResultSender::Value(v))
                }
            },
            ResultSender::Stream { result_sender, values_sender } => {
                if sent {
                    let p = PendingRequest::Stream { method, opener: Some(result_sender), items: values_sender };
                    proof {
                        lemma_awaiting_insert(m0, id, p);
                    }
                    let _ = self.requests.insert(id, p);
                    self.pending = self.pending + 1;
                    proof {
                        self.requests.lemma_finite();
                    }
                    Recorded::Kept
                } else {
                    Recorded::Rejected(ResultSender::Stream { result_sender, values_sender })
                }
            },
        }
    }

    /// Hands out the sender that answers the value request of the given id
    /// and method, and forgets the request; nothing happens when the
    /// consumer knows no such value request.
    pub fn take_value_sender(&mut self, id: usize, method: usize) -> (r: Option<V>)
        requires
            old(self).wf(),
        ensures
            final(self).wf(),
            match value_request(old(self).requests(), id, method) {
                Some(v) => {
                    &&& r == Some(v)
                    &&& final(self).requests() == old(self).requests().remove(id)
                    &&& final(self).pending() == old(self).pending() - 1
                },
                None => {
                    &&& r is None
                    &&& final(self).requests() == old(self).requests()
                    &&& final(self).pending() == old(self).pending()
                },
            },
            old(self).exact() ==> final(self).exact(),
    {
        let ghost m0 = self.requests@;
        proof {
            lemma_awaiting_finite(m0);
        }
        let found = match self.requests.get(id) {
            Some(PendingRequest::Value { method: m, .. }) => *m == method,
            _ => false,
        };
        if !found {
            return None;
        }
        proof {
            lemma_awaiting_remove(m0, id);
            assert(awaiting_ids(m0).contains(id));
        }
        match self.requests.remove(id) {
            Some(PendingRequest::Value { sender, .. }) => {
                self.pending = self.pending - 1;
                proof {
                    self.requests.lemma_finite();
                }
                Some(sender)
            },
            _ => {
                proof {
                    assert(false);
                }
                None
            },
        }
    }

    /// Hands out the sender that reports the stream of the given id and
    /// method open, if the stream was not reported open yet; the request is
    /// kept, no longer waiting.
    pub fn take_opener(&mut self, id: usize, method: usize) -> (r: Option<O>)
        requires
            old(self).wf(),
        ensures
            final(self).wf(),
            match unopened_stream(old(self).requests(), id, method) {
                Some(o) => {
                    &&& r == Some(o)
                    &&& final(self).requests() == old(self).requests().insert(id, PendingRequest::Stream {
                        method,
                        opener: None,
                        items: old(self).requests()[id]->items,
                    })
                    &&& final(self).pending() == old(self).pending() - 1
                },
                None => {
                    &&& r is None
                    &&& final(self).requests() == old(self).requests()
                    &&& final(self).pending() == old(self).pending()
                },
            },
            old(self).exact() ==> final(self).exact(),
    {
        let ghost m0 = self.requests@;
        proof {
            lemma_awaiting_finite(m0);
        }
        let found = match self.requests.get(id) {
            Some(PendingRequest::Stream { method: m, opener, .. }) => *m == method && opener.is_some(),
            _ => false,
        };
        if !found {
            return None;
        }
        proof {
            assert(awaiting_ids(m0).contains(id));
        }
        match self.requests.remove(id) {
            Some(PendingRequest::Stream { method: m, opener, items }) => {
                let p = PendingRequest::Stream { method: m, opener: None, items };
                proof {
                    lemma_awaiting_insert(m0, id, p);
                    assert(m0.remove(id).insert(id, p) == m0.insert(id, p));
                }
                let _ = self.requests.insert(id, p);
                self.pending = self.pending - 1;
                proof {
                    self.requests.lemma_finite();
                }
                opener
            },
            _ => {
                proof {
                    assert(false);
                }
                None
            },
        }
    }

    /// The sender that carries the items of the stream of the given id and
    /// method, opened or not.
    pub fn items_sender(&self, id: usize, method: usize) -> (r: Option<&S>)
        requires
            self.wf(),
        ensures
            match stream_request(self.requests(), id, method) {
                Some(s) => r == Some(&s),
                None => r is None,
            },
    {
        match self.requests.get(id) {
            Some(PendingRequest::Stream { method: m, items, .. }) => if *m == method {
                Some(items)
            } else {
                None
            },
            _ => None,
        }
    }

    /// Forgets the stream of the given id and method, which the producer
    /// reported ended, and hands its request back. The counter is left as
    /// it is: a stream that ends has been reported open before.
    pub fn close_stream(&mut self, id: usize, method: usize) -> (r: Option<PendingRequest<V, O, S>>)
        requires
            old(self).wf(),
        ensures
            final(self).wf(),
            final(self).pending() == old(self).pending(),
            match stream_request(old(self).requests(), id, method) {
                Some(_) => {
                    &&& r == Some(old(self).requests()[id])
                    &&& final(self).requests() == old(self).requests().remove(id)
                },
                None => {
                    &&& r is None
                    &&& final(self).requests() == old(self).requests()
                },
            },
            old(self).exact() && unopened_stream(old(self).requests(), id, method) is None ==> final(self).exact(),
    {
        let ghost m0 = self.requests@;
        proof {
            lemma_awaiting_finite(m0);
        }
        let found = match self.requests.get(id) {
            Some(PendingRequest::Stream { method: m, .. }) => *m == method,
            _ => false,
        };
        if !found {
            return None;
        }
        let r = self.requests.remove(id);
        proof {
            lemma_awaiting_remove(m0, id);
            self.requests.lemma_finite();
            lemma_awaiting_finite(self.requests@);
        }
        r
    }

    /// Forgets every request, and hands out a notice for each one that still
    /// waits. The counter is left as it is.
    pub fn shutdown(&mut self) -> (r: Vec<(usize, Notice<V, O>)>)
        requires
            old(self).wf(),
        ensures
            final(self).wf(),
            final(self).requests() == Map::<usize, PendingRequest<V, O, S>>::empty(),
            final(self).pending() == old(self).pending(),
            unique_ids(r@),
            slots_map(r@) == shutdown_notices(old(self).requests()),
    {
        let ghost m0 = self.requests@;
        let mut taken = self.requests.take_all();
        let ghost orig = taken@;
        let mut out: IdTable<Notice<V, O>> = IdTable::new();
        proof {
            crate::table::lemma_slots_map(orig);
            assert(slots_map(taken@).dom() =~= m0.dom());
            assert(out@ =~= shutdown_notices(m0).remove_keys(slots_map(taken@).dom()));
            assert(awaiting_ids(self.requests@) =~= Set::<usize>::empty());
        }
        while taken.len() > 0
            invariant
                out.wf(),
                taken@ == orig.take(taken@.len() as int),
                taken@.len() <= orig.len(),
                unique_ids(orig),
                slots_map(orig) == m0,
                out@ == shutdown_notices(m0).remove_keys(slots_map(taken@).dom()),
            decreases taken@.len(),
        {
            let ghost before = taken@;
            let (id, p) = taken.pop().unwrap();
            proof {
                let k = before.len() - 1;
                crate::table::lemma_slots_map(orig);
                assert(before[k] == orig[k]);
                assert(taken@ == before.drop_last());
                assert(taken@ == orig.take(taken@.len() as int));
                assert(unique_ids(taken@)) by {
                    assert forall|a: int, b: int| 0 <= a < taken@.len() && 0 <= b < taken@.len() && a != b implies #[trigger] taken@[a].0 != #[trigger] taken@[b].0 by {
                        assert(taken@[a] == orig[a] && taken@[b] == orig[b]);
                    }
                }
                crate::table::lemma_slots_map(taken@);
                assert(!slots_map(taken@).contains_key(id)) by {
                    if slots_map(taken@).contains_key(id) {
                        let j = choose|j: int| 0 <= j < taken@.len() && #[trigger] taken@[j].0 == id;
                        assert(orig[j].0 == orig[k].0);
                    }
                }
                assert(m0[orig[k].0] == orig[k].1);
                assert(slots_map(before).dom() == slots_map(taken@).dom().insert(id));
            }
            let waiting = match &p {
                PendingRequest::Value { .. } => true,
                PendingRequest::Stream { opener, .. } => opener.is_some(),
            };
            if waiting {
                let notice = match p {
                    PendingRequest::Value { sender, .. } => Notice::Value(sender),
                    PendingRequest::Stream { opener, .. } => Notice::Stream(opener.unwrap()),
                };
                let _ = out.insert(id, notice);
                proof {
                    assert(out@ =~= shutdown_notices(m0).remove_keys(slots_map(taken@).dom()));
                }
            } else {
                proof {
                    assert(out@ =~= shutdown_notices(m0).remove_keys(slots_map(taken@).dom()));
                }
            }
        }
        proof {
            assert(taken@ =~= Seq::<(usize, PendingRequest<V, O, S>)>::empty());
            assert(slots_map(taken@).dom() =~= Set::<usize>::empty());
            assert(out@ =~= shutdown_notices(m0));
            self.requests.lemma_finite();
        }
        out.take_all()
    }

    /// Decides what the consumer's main loop does after an event: on a stop,
    /// every request is forgotten and the ones that wait are handed out, to
    /// report the error made from the cause.
    pub fn step(&mut self, event: ConsumerEvent, timeout_configured: bool) -> (r: ConsumerStep<V, O>)
        requires
            old(self).wf(),
        ensures
            final(self).wf(),
            final(self).pending() == old(self).pending(),
            match consumer_stop_cause(event, timeout_configured, old(self).pending() == 0) {
                Some(cause) => r matches ConsumerStep::Stop { cause: c, notices } && c == cause
                    && unique_ids(notices@) && slots_map(notices@) == shutdown_notices(old(self).requests())
                    && final(self).requests() == Map::<usize, PendingRequest<V, O, S>>::empty(),
                None => if event == ConsumerEvent::Dropped {
                    r is Exit && final(self).requests() == old(self).requests()
                } else {
                    r is Continue && final(self).requests() == old(self).requests()
                },
            },
            event == ConsumerEvent::TransportClosed ==> (r matches ConsumerStep::Stop { cause, .. } && cause == ShutdownType::Closed),
            event matches ConsumerEvent::ProducerStopped(c) ==> (r matches ConsumerStep::Stop { cause, .. } && cause == c),
            event matches ConsumerEvent::ShutdownRequested(c) ==> (r matches ConsumerStep::Stop { cause, .. } && cause == c),
            event matches ConsumerEvent::ReceiveFailed(HandlingStrategy::Stop(c)) ==> (r matches ConsumerStep::Stop { cause, .. } && cause == c),
            event == ConsumerEvent::ReceiveFailed(HandlingStrategy::Ignore) ==> r is Continue,
            event == ConsumerEvent::Dropped ==> r is Exit,
    {
        if event == ConsumerEvent::Dropped {
            return ConsumerStep::Exit;
        }
        let idle = self.idle();
        let cause = stop_cause(event, timeout_configured, idle);
        match cause {
            Some(cause) => {
                let notices = self.shutdown();
                ConsumerStep::Stop { cause, notices }
            },
            None => ConsumerStep::Continue,
        }
    }
}

/// What became of a message handed to the consumer.
#[derive(Debug)]
pub enum Recorded<V, O, S> {
    /// The request was sent and is kept, waiting.
    Kept,
    /// The request could not be sent: its sender is handed back to report
    /// the error.
    Rejected(ResultSender<V, O, S>),
    /// An abort: the request it dropped, if the consumer knew it.
    Forgotten(Option<PendingRequest<V, O, S>>),
}

} // verus!
