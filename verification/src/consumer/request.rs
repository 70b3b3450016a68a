//! The life cycle of the futures that consumer methods return: a value
//! request, a streaming request, and the stream a streaming request opens.
//!
//! Each future here holds its own state only; the channels it polls belong
//! to the caller, which reports what each poll gave and does what each step
//! answers. Each step is stated by a spec function of the future's view, and
//! a whole poll by their composition, so that laws over any number of polls
//! can be stated and proved.

use vstd::prelude::*;
use crate::error::Error;
use crate::consumer::{Message, Payload, abort_message, request_message};

verus! {

/// What polling an abort receiver gave.
#[derive(Debug, Clone, Copy, PartialEq, Eq, Structural)]
pub enum Signal {
    /// Nothing yet, or the receiver was not polled.
    Quiet,
    /// The abort was triggered.
    Fired,
    /// The abort sender is gone without triggering.
    Cancelled,
}

/// What polling a result receiver gave.
#[derive(Debug)]
pub enum Reply<V> {
    /// Nothing yet.
    Pending,
    /// The result arrived.
    Arrived(V),
    /// The result sender is gone without sending.
    Cancelled,
}

/// The outcome of a poll.
#[derive(Debug)]
pub enum Progress<V> {
    /// Not ready yet.
    Pending,
    /// Ready with a value.
    Ready(V),
}

/// What a request future does first when it is polled.
#[derive(Debug)]
pub enum Begin<Request> {
    /// It was aborted: it is ready with [Error::Aborted].
    Aborted,
    /// It sends this message, and then polls the reply.
    Send(Message<Request>),
    /// It polls the reply it waits for.
    AwaitReply,
    /// It has nothing to do: it stays pending.
    Idle,
}

/// Responsible for aborting a request or stream.
#[derive(Debug, Clone, Copy)]
pub struct Aborter {
    id: usize,
}

/// What aborting does to the abort switch that an aborter and its copies
/// share: the switch is used up, and the abort acts only if the switch was
/// still there.
pub open spec fn abort_acts<T>(switch: Option<T>) -> bool {
    switch is Some
}

/// How many of `n` successive aborts on a shared switch act.
pub open spec fn acting_aborts<T>(switch: Option<T>, n: nat) -> nat
    decreases n,
{
    if n == 0 {
        0
    } else {
        (if abort_acts(switch) { 1nat } else { 0nat }) + acting_aborts(None::<T>, (n - 1) as nat)
    }
}

/// However many aborts an aborter and its copies make on their shared
/// switch, only the first acts, and only if the switch was still there.
pub proof fn lemma_only_first_abort_acts<T>(switch: Option<T>, n: nat)
    ensures
        acting_aborts(switch, n) == (if n > 0 && switch is Some { 1nat } else { 0nat }),
    decreases n,
{
    if n > 0 {
        lemma_only_first_abort_acts(None::<T>, (n - 1) as nat);
    }
}

impl Aborter {
    /// The aborter of the request with the given id.
    pub fn new(id: usize) -> (r: Self)
        ensures
            r.request_id() == id,
    {
        Aborter { id }
    }

    /// Id of the request this aborter can abort.
    #[verifier::when_used_as_spec(spec_request_id)]
    pub fn request_id(&self) -> (r: usize)
        ensures
            r == self.spec_request_id(),
    {
        self.id
    }

    /// The id of the request.
    pub closed spec fn spec_request_id(&self) -> usize {
        self.id
    }

    /// Aborts through the abort switch that the aborter and its copies
    /// share: uses the switch up, and, if it was still there, answers the
    /// message that asks the producer to abort and the switch, to fire. Only
    /// the first abort on a switch does anything.
    pub fn abort<Request, T>(&self, switch: &mut Option<T>) -> (r: Option<(Message<Request>, T)>)
        ensures
            *final(switch) is None,
            abort_acts(*old(switch)) <==> r is Some,
            match *old(switch) {
                Some(t) => r matches Some((m, u)) && u == t && m.id == self.request_id() && m.payload is Abort,
                None => r is None,
            },
    {
        match switch.take() {
            Some(t) => Some((abort_message(self.id), t)),
            None => None,
        }
    }
}

/// The state of a request future: its id, the request if it was not sent
/// yet, whether it waits for its reply, and whether it has an abort channel.
pub struct RequestView<R> {
    pub id: usize,
    pub unsent: Option<R>,
    pub awaiting: bool,
    pub abortable: bool,
}

/// A request future is done when its request was sent and it no longer waits.
pub open spec fn request_terminated<R>(s: RequestView<R>) -> bool {
    s.unsent is None && !s.awaiting
}

/// The first step of a poll, given what polling the abort receiver gave: a
/// fired abort of an abortable request ends it; otherwise an unsent request
/// is sent, once; otherwise it polls its reply if it waits for one.
pub open spec fn begin_step<R>(s: RequestView<R>, abort: Signal) -> (RequestView<R>, Begin<R>) {
    if s.abortable && abort == Signal::Fired {
        (RequestView { id: s.id, unsent: None, awaiting: false, abortable: s.abortable }, Begin::Aborted)
    } else {
        match s.unsent {
            Some(q) => (
                RequestView { id: s.id, unsent: None, awaiting: s.awaiting, abortable: s.abortable },
                Begin::Send(Message { id: s.id, payload: Payload::Request(q) }),
            ),
            None => (s, if s.awaiting { Begin::AwaitReply } else { Begin::Idle }),
        }
    }
}

/// The state after making an aborter: the request is abortable.
pub open spec fn with_abort<R>(s: RequestView<R>) -> RequestView<R> {
    RequestView { id: s.id, unsent: s.unsent, awaiting: s.awaiting, abortable: true }
}

/// The state with the given waiting flag.
pub open spec fn with_awaiting<R>(s: RequestView<R>, awaiting: bool) -> RequestView<R> {
    RequestView { id: s.id, unsent: s.unsent, awaiting, abortable: s.abortable }
}

/// The message a request future sends when it is dropped: an abort, unless
/// it is done.
pub open spec fn drop_message<R, Q>(s: RequestView<Q>) -> Option<Message<R>> {
    if request_terminated(s) {
        None
    } else {
        Some(Message { id: s.id, payload: Payload::Abort })
    }
}

/// A value request, after polling the reply it waits for.
pub open spec fn value_on_reply<R, T, E>(s: RequestView<R>, reply: Reply<Result<T, Error<E>>>) -> (RequestView<R>, Progress<Result<T, Error<E>>>) {
    match reply {
        Reply::Pending => (s, Progress::Pending),
        Reply::Arrived(v) => (with_awaiting(s, false), Progress::Ready(v)),
        Reply::Cancelled => (with_awaiting(s, false), Progress::Ready(Err(Error::Dropped))),
    }
}

/// A value request, after sending its request: a request that could not be
/// sent fails with [Error::Shutdown]; one that waits keeps its receiver.
pub open spec fn value_after_send<R, T, E>(s: RequestView<R>, sent: bool, reply: Reply<Result<T, Error<E>>>) -> (RequestView<R>, Progress<Result<T, Error<E>>>) {
    if !sent {
        (with_awaiting(s, false), Progress::Ready(Err(Error::Shutdown)))
    } else {
        match reply {
            Reply::Pending => (with_awaiting(s, true), Progress::Pending),
            _ => value_on_reply(s, reply),
        }
    }
}

/// What the caller's polls give during one poll of a request future: the
/// abort receiver, whether the message went out (when one is sent), and the
/// reply receiver (when it is polled).
pub struct RequestPoll<V> {
    pub abort: Signal,
    pub sent: bool,
    pub reply: Reply<V>,
}

/// One whole poll of a value request: the new state, the message it sends
/// if any, and its outcome.
pub open spec fn value_poll<R, T, E>(s: RequestView<R>, p: RequestPoll<Result<T, Error<E>>>) -> (RequestView<R>, Option<Message<R>>, Progress<Result<T, Error<E>>>) {
    let (s1, b) = begin_step(s, p.abort);
    match b {
        Begin::Aborted => (s1, None, Progress::Ready(Err(Error::Aborted))),
        Begin::Send(m) => {
            let (s2, out) = value_after_send(s1, p.sent, p.reply);
            (s2, Some(m), out)
        },
        Begin::AwaitReply => {
            let (s2, out) = value_on_reply(s1, p.reply);
            (s2, None, out)
        },
        Begin::Idle => (s1, None, Progress::Pending),
    }
}

/// The state of a value request after a sequence of polls.
pub open spec fn value_after_polls<R, T, E>(s: RequestView<R>, polls: Seq<RequestPoll<Result<T, Error<E>>>>) -> RequestView<R>
    decreases polls.len(),
{
    if polls.len() == 0 {
        s
    } else {
        value_after_polls(value_poll(s, polls[0]).0, polls.drop_first())
    }
}

/// How many messages a value request sends during a sequence of polls.
pub open spec fn value_sends<R, T, E>(s: RequestView<R>, polls: Seq<RequestPoll<Result<T, Error<E>>>>) -> nat
    decreases polls.len(),
{
    if polls.len() == 0 {
        0
    } else {
        let (s1, m, _) = value_poll(s, polls[0]);
        (if m is Some { 1nat } else { 0nat }) + value_sends(s1, polls.drop_first())
    }
}

/// However it is polled, a value request sends its request at most once,
/// and never once it has sent it; the first message it sends carries its
/// request.
pub proof fn lemma_value_request_sent_once<R, T, E>(s: RequestView<R>, polls: Seq<RequestPoll<Result<T, Error<E>>>>)
    ensures
        value_sends(s, polls) <= (if s.unsent is Some { 1nat } else { 0nat }),
        polls.len() > 0 && value_poll(s, polls[0]).1 is Some ==> (s.unsent matches Some(q)
            && value_poll(s, polls[0]).1 == Some(Message { id: s.id, payload: Payload::Request(q) })),
    decreases polls.len(),
{
    if polls.len() > 0 {
        let (s1, m, _) = value_poll(s, polls[0]);
        assert(s1.unsent is None);
        lemma_value_request_sent_once(s1, polls.drop_first());
    }
}

/// Once a value request is done, it stays done however it is polled, and
/// sends nothing more; dropped, it sends nothing.
pub proof fn lemma_value_request_stays_terminated<R, T, E>(s: RequestView<R>, polls: Seq<RequestPoll<Result<T, Error<E>>>>)
    requires
        request_terminated(s),
    ensures
        request_terminated(value_after_polls(s, polls)),
        value_sends(s, polls) == 0,
        drop_message::<R, R>(value_after_polls(s, polls)) is None,
    decreases polls.len(),
{
    if polls.len() > 0 {
        lemma_value_request_stays_terminated(value_poll(s, polls[0]).0, polls.drop_first());
    }
}

/// A poll that makes a value request ready leaves it done: from then on it
/// stays done, sends nothing, and sends nothing when dropped.
pub proof fn lemma_value_request_ready_is_final<R, T, E>(s: RequestView<R>, p: RequestPoll<Result<T, Error<E>>>, polls: Seq<RequestPoll<Result<T, Error<E>>>>)
    requires
        value_poll(s, p).2 is Ready,
    ensures
        request_terminated(value_poll(s, p).0),
        request_terminated(value_after_polls(value_poll(s, p).0, polls)),
        value_sends(value_poll(s, p).0, polls) == 0,
{
    lemma_value_request_stays_terminated(value_poll(s, p).0, polls);
}

/// A value request resolves with exactly the result delivered to it, errors
/// included: whether the result arrives in the poll that sends the request or
/// in a later one, and unless an abort ends the request first, the outcome is
/// `Ready` with that result, and the request is done.
pub proof fn lemma_value_request_delivers_result<R, T, E>(s: RequestView<R>, abort: Signal, v: Result<T, Error<E>>)
    ensures
        value_on_reply(s, Reply::Arrived(v)).1 == Progress::Ready(v),
        value_after_send(s, true, Reply::Arrived(v)).1 == Progress::Ready(v),
        !(s.abortable && abort == Signal::Fired) && (s.unsent is Some || s.awaiting) ==> {
            let p = RequestPoll { abort, sent: true, reply: Reply::Arrived(v) };
            &&& value_poll(s, p).2 == Progress::Ready(v)
            &&& request_terminated(value_poll(s, p).0)
        },
{
}

/// Future returned by consumer value requests.
#[derive(Debug)]
pub struct ValueRequest<Request> {
    id: usize,
    request: Option<Request>,
    awaiting: bool,
    abortable: bool,
}

impl<Request> View for ValueRequest<Request> {
    type V = RequestView<Request>;

    closed spec fn view(&self) -> RequestView<Request> {
        RequestView { id: self.id, unsent: self.request, awaiting: self.awaiting, abortable: self.abortable }
    }
}

impl<Request> ValueRequest<Request> {
    /// The request id.
    pub closed spec fn spec_id(&self) -> usize {
        self.id
    }

    /// Create new value request.
    pub fn new(id: usize, request: Request) -> (r: Self)
        ensures
            r@ == (RequestView { id, unsent: Some(request), awaiting: false, abortable: false }),
    {
        ValueRequest { id, request: Some(request), awaiting: false, abortable: false }
    }

    /// Request id.
    #[verifier::when_used_as_spec(spec_id)]
    pub fn id(&self) -> (r: usize)
        ensures
            r == self.spec_id(),
            r == self@.id,
    {
        self.id
    }

    /// Aborter for this value request, and whether its abort channel must be
    /// made now: only the first time, so that every aborter of the request
    /// shares one abort channel.
    pub fn aborter(&mut self) -> (r: (Aborter, bool))
        ensures
            r.0.request_id() == old(self)@.id,
            r.1 == !old(self)@.abortable,
            final(self)@ == with_abort(old(self)@),
    {
        let create = !self.abortable;
        self.abortable = true;
        (Aborter::new(self.id), create)
    }

    /// The first step of a poll, given what polling the abort receiver gave
    /// (it is polled only if the request is abortable).
    pub fn begin_poll(&mut self, abort: Signal) -> (r: Begin<Request>)
        ensures
            (final(self)@, r) == begin_step(old(self)@, abort),
    {
        if self.abortable && abort == Signal::Fired {
            self.request = None;
            self.awaiting = false;
            return Begin::Aborted;
        }
        match self.request.take() {
            Some(request) => Begin::Send(request_message(self.id, request)),
            None => if self.awaiting {
                Begin::AwaitReply
            } else {
                Begin::Idle
            },
        }
    }

    /// After sending the request: whether the message was sent, and what
    /// polling the fresh reply receiver gave (it is polled only if the
    /// message was sent).
    pub fn after_send<T, E>(&mut self, sent: bool, reply: Reply<Result<T, Error<E>>>) -> (r: Progress<Result<T, Error<E>>>)
        ensures
            (final(self)@, r) == value_after_send(old(self)@, sent, reply),
            !sent ==> r == Progress::<Result<T, Error<E>>>::Ready(Err(Error::Shutdown)),
            sent ==> (reply matches Reply::Arrived(v) ==> r == Progress::Ready(v)),
            sent ==> (reply is Cancelled ==> r == Progress::<Result<T, Error<E>>>::Ready(Err(Error::Dropped))),
            sent ==> (reply is Pending <==> r is Pending),
    {
        if !sent {
            self.awaiting = false;
            return Progress::Ready(Err(Error::Shutdown));
        }
        match reply {
            Reply::Pending => {
                self.awaiting = true;
                Progress::Pending
            },
            Reply::Arrived(v) => {
                self.awaiting = false;
                Progress::Ready(v)
            },
            Reply::Cancelled => {
                self.awaiting = false;
                Progress::Ready(Err(Error::Dropped))
            },
        }
    }

    /// A poll of the reply the request waits for gave this.
    pub fn on_reply<T, E>(&mut self, reply: Reply<Result<T, Error<E>>>) -> (r: Progress<Result<T, Error<E>>>)
        ensures
            (final(self)@, r) == value_on_reply(old(self)@, reply),
            reply matches Reply::Arrived(v) ==> r == Progress::Ready(v),
            reply is Cancelled ==> r == Progress::<Result<T, Error<E>>>::Ready(Err(Error::Dropped)),
            reply is Pending <==> r is Pending,
    {
        match reply {
            Reply::Pending => Progress::Pending,
            Reply::Arrived(v) => {
                self.awaiting = false;
                Progress::Ready(v)
            },
            Reply::Cancelled => {
                self.awaiting = false;
                Progress::Ready(Err(Error::Dropped))
            },
        }
    }

    /// Whether the future is done.
    pub fn is_terminated(&self) -> (r: bool)
        ensures
            r == request_terminated(self@),
    {
        self.request.is_none() && !self.awaiting
    }

    /// The message to send when the future is dropped: an abort, unless it
    /// is done.
    pub fn on_drop<R>(&self) -> (r: Option<Message<R>>)
        ensures
            r == drop_message::<R, Request>(self@),
    {
        if self.is_terminated() {
            None
        } else {
            Some(abort_message(self.id))
        }
    }
}

/// The state of a stream: its id, whether it still holds its item receiver,
/// and whether it has an abort channel.
pub struct StreamView {
    pub id: usize,
    pub receiving: bool,
    pub abortable: bool,
}

/// Stream returned by the [StreamRequest].
#[derive(Debug)]
pub struct Stream {
    id: usize,
    receiving: bool,
    abortable: bool,
}

impl View for Stream {
    type V = StreamView;

    closed spec fn view(&self) -> StreamView {
        StreamView { id: self.id, receiving: self.receiving, abortable: self.abortable }
    }
}

/// What polling the item receiver of a stream gave.
#[derive(Debug)]
pub enum Item<T> {
    /// Nothing yet.
    Pending,
    /// The next item, or `None` when the stream has ended.
    Next(Option<T>),
}

/// What a stream does after polling its items.
#[derive(Debug)]
pub enum NextStep<T> {
    /// The poll is over with this outcome.
    Done(Progress<Option<T>>),
    /// No item yet: poll the abort receiver and report it.
    CheckAbort,
}

/// The stream with the given receiving flag.
pub open spec fn with_receiving(s: StreamView, receiving: bool) -> StreamView {
    StreamView { id: s.id, receiving, abortable: s.abortable }
}

/// A stream, after polling its item receiver (it is polled only while the
/// stream is receiving): items come first; an ended receiver ends the
/// stream; with no item, an abortable stream checks its abort.
pub open spec fn items_step<T>(s: StreamView, polled: Item<T>) -> (StreamView, NextStep<T>) {
    if !s.receiving {
        (s, NextStep::Done(Progress::Ready(None)))
    } else {
        match polled {
            Item::Next(Some(v)) => (s, NextStep::Done(Progress::Ready(Some(v)))),
            Item::Next(None) => (with_receiving(s, false), NextStep::Done(Progress::Ready(None))),
            Item::Pending => (s, if s.abortable { NextStep::CheckAbort } else { NextStep::Done(Progress::Pending) }),
        }
    }
}

/// A stream, after polling its abort receiver while no item was ready: a
/// fired abort ends it.
pub open spec fn abort_step<T>(s: StreamView, abort: Signal) -> (StreamView, Progress<Option<T>>) {
    if abort == Signal::Fired {
        (with_receiving(s, false), Progress::Ready(None))
    } else {
        (s, Progress::Pending)
    }
}

/// What the caller's polls give during one poll of a stream.
pub struct StreamPoll<T> {
    pub items: Item<T>,
    pub abort: Signal,
}

/// One whole poll of a stream: the new state and the outcome.
pub open spec fn stream_poll<T>(s: StreamView, p: StreamPoll<T>) -> (StreamView, Progress<Option<T>>) {
    let (s1, n) = items_step(s, p.items);
    match n {
        NextStep::Done(out) => (s1, out),
        NextStep::CheckAbort => abort_step(s1, p.abort),
    }
}

/// The state of a stream after a sequence of polls.
pub open spec fn stream_after_polls<T>(s: StreamView, polls: Seq<StreamPoll<T>>) -> StreamView
    decreases polls.len(),
{
    if polls.len() == 0 {
        s
    } else {
        stream_after_polls(stream_poll(s, polls[0]).0, polls.drop_first())
    }
}

/// The outcomes of a sequence of polls of a stream.
pub open spec fn stream_outputs<T>(s: StreamView, polls: Seq<StreamPoll<T>>) -> Seq<Progress<Option<T>>>
    decreases polls.len(),
{
    if polls.len() == 0 {
        Seq::empty()
    } else {
        let (s1, out) = stream_poll(s, polls[0]);
        seq![out] + stream_outputs(s1, polls.drop_first())
    }
}

/// An ended stream stays ended: every later poll yields `None`.
pub proof fn lemma_stream_stays_ended<T>(s: StreamView, polls: Seq<StreamPoll<T>>)
    requires
        !s.receiving,
    ensures
        !stream_after_polls(s, polls).receiving,
        stream_outputs(s, polls).len() == polls.len(),
        forall|i: int| 0 <= i < polls.len() ==> #[trigger] stream_outputs(s, polls)[i] == Progress::<Option<T>>::Ready(None),
    decreases polls.len(),
{
    if polls.len() > 0 {
        let s1 = stream_poll(s, polls[0]).0;
        lemma_stream_stays_ended(s1, polls.drop_first());
        assert forall|i: int| 0 <= i < polls.len() implies #[trigger] stream_outputs(s, polls)[i] == Progress::<Option<T>>::Ready(None) by {
            if i > 0 {
                assert(stream_outputs(s, polls)[i] == stream_outputs(s1, polls.drop_first())[i - 1]);
            }
        }
    }
}

/// A receiving stream yields the items its receiver holds, in order, and
/// then, once the receiver has ended or a fired abort is seen with no item
/// left, `None` on that poll and on every later one: an abort does not drop
/// the items already received.
pub proof fn lemma_stream_items_then_end<T>(s: StreamView, polls: Seq<StreamPoll<T>>, k: int)
    requires
        s.receiving,
        0 <= k < polls.len(),
        forall|i: int| 0 <= i < k ==> #[trigger] polls[i].items is Next && polls[i].items->Next_0 is Some,
        polls[k].items == Item::<T>::Next(None) || (polls[k].items is Pending && s.abortable && polls[k].abort == Signal::Fired),
    ensures
        stream_outputs(s, polls).len() == polls.len(),
        forall|i: int| 0 <= i < k ==> #[trigger] stream_outputs(s, polls)[i] == Progress::Ready(polls[i].items->Next_0),
        forall|j: int| k <= j < polls.len() ==> #[trigger] stream_outputs(s, polls)[j] == Progress::<Option<T>>::Ready(None),
        !stream_after_polls(s, polls).receiving,
    decreases k,
{
    let s1 = stream_poll(s, polls[0]).0;
    let rest = polls.drop_first();
    if k == 0 {
        assert(!s1.receiving);
        lemma_stream_stays_ended(s1, rest);
        assert forall|j: int| 0 <= j < polls.len() implies #[trigger] stream_outputs(s, polls)[j] == Progress::<Option<T>>::Ready(None) by {
            if j > 0 {
                assert(stream_outputs(s, polls)[j] == stream_outputs(s1, rest)[j - 1]);
            }
        }
    } else {
        assert(polls[0].items is Next && polls[0].items->Next_0 is Some);
        assert(s1 == s);
        assert forall|i: int| 0 <= i < k - 1 implies #[trigger] rest[i].items is Next && rest[i].items->Next_0 is Some by {
            assert(rest[i] == polls[i + 1]);
        }
        assert(rest[k - 1] == polls[k]);
        lemma_stream_items_then_end(s1, rest, k - 1);
        assert forall|i: int| 0 <= i < k implies #[trigger] stream_outputs(s, polls)[i] == Progress::Ready(polls[i].items->Next_0) by {
            if i > 0 {
                assert(stream_outputs(s, polls)[i] == stream_outputs(s1, rest)[i - 1]);
                assert(rest[i - 1] == polls[i]);
            }
        }
        assert forall|j: int| k <= j < polls.len() implies #[trigger] stream_outputs(s, polls)[j] == Progress::<Option<T>>::Ready(None) by {
            assert(stream_outputs(s, polls)[j] == stream_outputs(s1, rest)[j - 1]);
        }
    }
}

/// The message a stream sends when it is dropped: an abort while it still
/// receives, nothing once it has ended.
pub open spec fn stream_drop_message<R>(s: StreamView) -> Option<Message<R>> {
    if s.receiving {
        Some(Message { id: s.id, payload: Payload::Abort })
    } else {
        None
    }
}

impl Stream {
    /// Whether the stream holds its item receiver, and so polls it.
    pub fn is_receiving(&self) -> (r: bool)
        ensures
            r == self@.receiving,
    {
        self.receiving
    }

    /// Aborter for this stream, and whether its abort channel must be made
    /// now: only when the stream has none.
    pub fn aborter(&mut self) -> (r: (Aborter, bool))
        ensures
            r.0.request_id() == old(self)@.id,
            r.1 == !old(self)@.abortable,
            final(self)@ == (StreamView { id: old(self)@.id, receiving: old(self)@.receiving, abortable: true }),
    {
        let create = !self.abortable;
        self.abortable = true;
        (Aborter::new(self.id), create)
    }

    /// A poll of the item receiver gave this (it is polled only while the
    /// stream is receiving; otherwise the stream is over).
    pub fn on_items<T>(&mut self, polled: Item<T>) -> (r: NextStep<T>)
        ensures
            (final(self)@, r) == items_step(old(self)@, polled),
    {
        if !self.receiving {
            return NextStep::Done(Progress::Ready(None));
        }
        match polled {
            Item::Next(Some(v)) => NextStep::Done(Progress::Ready(Some(v))),
            Item::Next(None) => {
                self.receiving = false;
                NextStep::Done(Progress::Ready(None))
            },
            Item::Pending => if self.abortable {
                NextStep::CheckAbort
            } else {
                NextStep::Done(Progress::Pending)
            },
        }
    }

    /// A poll of the abort receiver gave this, while no item was ready: a
    /// fired abort ends the stream.
    pub fn on_abort<T>(&mut self, abort: Signal) -> (r: Progress<Option<T>>)
        ensures
            (final(self)@, r) == abort_step::<T>(old(self)@, abort),
    {
        if abort == Signal::Fired {
            self.receiving = false;
            Progress::Ready(None)
        } else {
            Progress::Pending
        }
    }

    /// Whether the stream is over: it is once it no longer holds its item
    /// receiver.
    pub fn is_terminated(&self) -> (r: bool)
        ensures
            r == !self@.receiving,
    {
        !self.receiving
    }

    /// The message to send when the stream is dropped: an abort while it
    /// still receives.
    pub fn on_drop<R>(&self) -> (r: Option<Message<R>>)
        ensures
            r == stream_drop_message::<R>(self@),
    {
        if self.is_terminated() {
            None
        } else {
            Some(abort_message(self.id))
        }
    }
}

/// A streaming request, after polling the result it waits for: `Ok` opens
/// the stream, receiving, which takes over the request's abort channel; an
/// error that arrives is the request's outcome; a lost result sender makes
/// it [Error::Dropped].
pub open spec fn stream_on_reply<R, E>(s: RequestView<R>, reply: Reply<Result<(), Error<E>>>) -> (RequestView<R>, Progress<Result<StreamView, Error<E>>>) {
    match reply {
        Reply::Pending => (s, Progress::Pending),
        Reply::Arrived(Ok(())) => (
            RequestView { id: s.id, unsent: s.unsent, awaiting: false, abortable: false },
            Progress::Ready(Ok(StreamView { id: s.id, receiving: true, abortable: s.abortable })),
        ),
        Reply::Arrived(Err(e)) => (with_awaiting(s, false), Progress::Ready(Err(e))),
        Reply::Cancelled => (with_awaiting(s, false), Progress::Ready(Err(Error::Dropped))),
    }
}

/// A streaming request, after sending its request: one that could not be
/// sent fails with [Error::Shutdown]; one that waits keeps its receivers.
pub open spec fn stream_after_send<R, E>(s: RequestView<R>, sent: bool, reply: Reply<Result<(), Error<E>>>) -> (RequestView<R>, Progress<Result<StreamView, Error<E>>>) {
    if !sent {
        (with_awaiting(s, false), Progress::Ready(Err(Error::Shutdown)))
    } else {
        match reply {
            Reply::Pending => (with_awaiting(s, true), Progress::Pending),
            _ => stream_on_reply(s, reply),
        }
    }
}

/// The outcome of a streaming request, as the stream's view.
pub open spec fn stream_progress<E>(r: Progress<Result<Stream, Error<E>>>) -> Progress<Result<StreamView, Error<E>>> {
    match r {
        Progress::Pending => Progress::Pending,
        Progress::Ready(Ok(st)) => Progress::Ready(Ok(st@)),
        Progress::Ready(Err(e)) => Progress::Ready(Err(e)),
    }
}

/// One whole poll of a streaming request: the new state, the message it
/// sends if any, and its outcome.
pub open spec fn stream_request_poll<R, E>(s: RequestView<R>, p: RequestPoll<Result<(), Error<E>>>) -> (RequestView<R>, Option<Message<R>>, Progress<Result<StreamView, Error<E>>>) {
    let (s1, b) = begin_step(s, p.abort);
    match b {
        Begin::Aborted => (s1, None, Progress::Ready(Err(Error::Aborted))),
        Begin::Send(m) => {
            let (s2, out) = stream_after_send(s1, p.sent, p.reply);
            (s2, Some(m), out)
        },
        Begin::AwaitReply => {
            let (s2, out) = stream_on_reply(s1, p.reply);
            (s2, None, out)
        },
        Begin::Idle => (s1, None, Progress::Pending),
    }
}

/// The state of a streaming request after a sequence of polls.
pub open spec fn stream_request_after_polls<R, E>(s: RequestView<R>, polls: Seq<RequestPoll<Result<(), Error<E>>>>) -> RequestView<R>
    decreases polls.len(),
{
    if polls.len() == 0 {
        s
    } else {
        stream_request_after_polls(stream_request_poll(s, polls[0]).0, polls.drop_first())
    }
}

/// How many messages a streaming request sends during a sequence of polls.
pub open spec fn stream_request_sends<R, E>(s: RequestView<R>, polls: Seq<RequestPoll<Result<(), Error<E>>>>) -> nat
    decreases polls.len(),
{
    if polls.len() == 0 {
        0
    } else {
        let (s1, m, _) = stream_request_poll(s, polls[0]);
        (if m is Some { 1nat } else { 0nat }) + stream_request_sends(s1, polls.drop_first())
    }
}

/// However it is polled, a streaming request sends its request at most
/// once, and never once it has sent it; the first message it sends carries
/// its request.
pub proof fn lemma_stream_request_sent_once<R, E>(s: RequestView<R>, polls: Seq<RequestPoll<Result<(), Error<E>>>>)
    ensures
        stream_request_sends(s, polls) <= (if s.unsent is Some { 1nat } else { 0nat }),
        polls.len() > 0 && stream_request_poll(s, polls[0]).1 is Some ==> (s.unsent matches Some(q)
            && stream_request_poll(s, polls[0]).1 == Some(Message { id: s.id, payload: Payload::Request(q) })),
    decreases polls.len(),
{
    if polls.len() > 0 {
        let (s1, m, _) = stream_request_poll(s, polls[0]);
        assert(s1.unsent is None);
        lemma_stream_request_sent_once(s1, polls.drop_first());
    }
}

/// Once a streaming request is done, it stays done however it is polled,
/// and sends nothing more; dropped, it sends nothing.
pub proof fn lemma_stream_request_stays_terminated<R, E>(s: RequestView<R>, polls: Seq<RequestPoll<Result<(), Error<E>>>>)
    requires
        request_terminated(s),
    ensures
        request_terminated(stream_request_after_polls(s, polls)),
        stream_request_sends(s, polls) == 0,
        drop_message::<R, R>(stream_request_after_polls(s, polls)) is None,
    decreases polls.len(),
{
    if polls.len() > 0 {
        lemma_stream_request_stays_terminated(stream_request_poll(s, polls[0]).0, polls.drop_first());
    }
}

/// A poll that makes a streaming request ready leaves it done: from then on
/// it stays done and sends nothing. When it opens a stream, the stream
/// receives, with the request's id and abort channel.
pub proof fn lemma_stream_request_ready_is_final<R, E>(s: RequestView<R>, p: RequestPoll<Result<(), Error<E>>>, polls: Seq<RequestPoll<Result<(), Error<E>>>>)
    requires
        stream_request_poll(s, p).2 is Ready,
    ensures
        request_terminated(stream_request_poll(s, p).0),
        request_terminated(stream_request_after_polls(stream_request_poll(s, p).0, polls)),
        stream_request_sends(stream_request_poll(s, p).0, polls) == 0,
        stream_request_poll(s, p).2 matches Progress::Ready(Ok(st))
            ==> st.id == s.id && st.receiving && st.abortable == s.abortable,
{
    lemma_stream_request_stays_terminated(stream_request_poll(s, p).0, polls);
}

/// A streaming request resolves with exactly what is delivered to it: an
/// error that arrives is its outcome unchanged, and `Ok` opens a receiving
/// stream with the request's id, which takes over the request's abort
/// channel; unless an abort ends the request first, this holds whether the
/// answer comes in the poll that sends the request or in a later one.
pub proof fn lemma_stream_request_delivers_result<R, E>(s: RequestView<R>, abort: Signal, v: Result<(), Error<E>>)
    ensures
        v matches Err(e) ==> stream_on_reply(s, Reply::Arrived(v)).1 == Progress::<Result<StreamView, Error<E>>>::Ready(Err(e)),
        v matches Err(e) ==> stream_after_send(s, true, Reply::Arrived(v)).1 == Progress::<Result<StreamView, Error<E>>>::Ready(Err(e)),
        v is Ok ==> stream_on_reply(s, Reply::Arrived(v)).1
            == Progress::<Result<StreamView, Error<E>>>::Ready(Ok(StreamView { id: s.id, receiving: true, abortable: s.abortable })),
        v is Ok ==> stream_after_send(s, true, Reply::Arrived(v)).1
            == Progress::<Result<StreamView, Error<E>>>::Ready(Ok(StreamView { id: s.id, receiving: true, abortable: s.abortable })),
        !(s.abortable && abort == Signal::Fired) && (s.unsent is Some || s.awaiting) ==> {
            let p = RequestPoll { abort, sent: true, reply: Reply::Arrived(v) };
            &&& request_terminated(stream_request_poll(s, p).0)
            &&& (v matches Err(e) ==> stream_request_poll(s, p).2 == Progress::<Result<StreamView, Error<E>>>::Ready(Err(e)))
            &&& (v is Ok ==> stream_request_poll(s, p).2
                == Progress::<Result<StreamView, Error<E>>>::Ready(Ok(StreamView { id: s.id, receiving: true, abortable: s.abortable })))
        },
{
}

/// Future returned by consumer streaming requests.
#[derive(Debug)]
pub struct StreamRequest<Request> {
    id: usize,
    request: Option<Request>,
    awaiting: bool,
    abortable: bool,
}

impl<Request> View for StreamRequest<Request> {
    type V = RequestView<Request>;

    closed spec fn view(&self) -> RequestView<Request> {
        RequestView { id: self.id, unsent: self.request, awaiting: self.awaiting, abortable: self.abortable }
    }
}

impl<Request> StreamRequest<Request> {
    /// The request id.
    pub closed spec fn spec_id(&self) -> usize {
        self.id
    }

    /// Create new stream request.
    pub fn new(id: usize, request: Request) -> (r: Self)
        ensures
            r@ == (RequestView { id, unsent: Some(request), awaiting: false, abortable: false }),
    {
        StreamRequest { id, request: Some(request), awaiting: false, abortable: false }
    }

    /// Request id.
    #[verifier::when_used_as_spec(spec_id)]
    pub fn id(&self) -> (r: usize)
        ensures
            r == self.spec_id(),
            r == self@.id,
    {
        self.id
    }

    /// Aborter for this stream request (it can abort the resulting stream as
    /// well), and whether its abort channel must be made now: only when the
    /// request has none, so that its aborters share one channel.
    pub fn aborter(&mut self) -> (r: (Aborter, bool))
        ensures
            r.0.request_id() == old(self)@.id,
            r.1 == !old(self)@.abortable,
            final(self)@ == with_abort(old(self)@),
    {
        let create = !self.abortable;
        self.abortable = true;
        (Aborter::new(self.id), create)
    }

    /// The first step of a poll, given what polling the abort receiver gave
    /// (it is polled only if the request is abortable).
    pub fn begin_poll(&mut self, abort: Signal) -> (r: Begin<Request>)
        ensures
            (final(self)@, r) == begin_step(old(self)@, abort),
    {
        if self.abortable && abort == Signal::Fired {
            self.request = None;
            self.awaiting = false;
            return Begin::Aborted;
        }
        match self.request.take() {
            Some(request) => Begin::Send(request_message(self.id, request)),
            None => if self.awaiting {
                Begin::AwaitReply
            } else {
                Begin::Idle
            },
        }
    }

    /// A poll of the result the request waits for gave this.
    pub fn on_reply<E>(&mut self, reply: Reply<Result<(), Error<E>>>) -> (r: Progress<Result<Stream, Error<E>>>)
        ensures
            (final(self)@, stream_progress(r)) == stream_on_reply(old(self)@, reply),
            reply matches Reply::Arrived(Err(e)) ==> (r matches Progress::Ready(Err(e2)) && e2 == e),
            reply matches Reply::Arrived(Ok(_)) ==> (r matches Progress::Ready(Ok(st))
                && st@ == (StreamView { id: old(self)@.id, receiving: true, abortable: old(self)@.abortable })),
            reply is Cancelled ==> (r matches Progress::Ready(Err(e2)) && e2 == Error::<E>::Dropped),
            reply is Pending <==> r is Pending,
    {
        match reply {
            Reply::Pending => Progress::Pending,
            Reply::Arrived(Ok(())) => {
                self.awaiting = false;
                let abortable = self.abortable;
                self.abortable = false;
                Progress::Ready(Ok(Stream { id: self.id, receiving: true, abortable }))
            },
            Reply::Arrived(Err(e)) => {
                self.awaiting = false;
                Progress::Ready(Err(e))
            },
            Reply::Cancelled => {
                self.awaiting = false;
                Progress::Ready(Err(Error::Dropped))
            },
        }
    }

    /// After sending the request: whether the message was sent, and what
    /// polling the fresh result receiver gave (it is polled only if the
    /// message was sent). When the stream opens, it takes over the item
    /// receiver, the aborter and the abort receiver.
    pub fn after_send<E>(&mut self, sent: bool, reply: Reply<Result<(), Error<E>>>) -> (r: Progress<Result<Stream, Error<E>>>)
        ensures
            (final(self)@, stream_progress(r)) == stream_after_send(old(self)@, sent, reply),
            !sent ==> (r matches Progress::Ready(Err(e2)) && e2 == Error::<E>::Shutdown),
            sent ==> (reply matches Reply::Arrived(Err(e)) ==> (r matches Progress::Ready(Err(e2)) && e2 == e)),
            sent ==> (reply is Cancelled ==> (r matches Progress::Ready(Err(e2)) && e2 == Error::<E>::Dropped)),
            sent ==> (reply is Pending <==> r is Pending),
    {
        if !sent {
            self.awaiting = false;
            return Progress::Ready(Err(Error::Shutdown));
        }
        match reply {
            Reply::Pending => {
                self.awaiting = true;
                Progress::Pending
            },
            _ => self.on_reply(reply),
        }
    }

    /// Whether the future is done.
    pub fn is_terminated(&self) -> (r: bool)
        ensures
            r == request_terminated(self@),
    {
        self.request.is_none() && !self.awaiting
    }

    /// The message to send when the future is dropped: an abort, unless it
    /// is done.
    pub fn on_drop<R>(&self) -> (r: Option<Message<R>>)
        ensures
            r == drop_message::<R, Request>(self@),
    {
        if self.is_terminated() {
            None
        } else {
            Some(abort_message(self.id))
        }
    }
}

} // verus!
