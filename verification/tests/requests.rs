use zzrpc::consumer::request::{Begin, Item, NextStep, Progress, Reply, Signal};
use zzrpc::consumer::{Aborter, Payload, StreamRequest, ValueRequest};
use zzrpc::Error;

type Outcome = Result<i32, Error<()>>;

#[test]
fn value_request_sends_once_and_waits() {
    let mut request = ValueRequest::new(5, "add(1, 2)");
    assert_eq!(request.id(), 5);
    assert!(!request.is_terminated());
    match request.begin_poll(Signal::Quiet) {
        Begin::Send(message) => {
            assert_eq!(message.id, 5);
            assert!(matches!(message.payload, Payload::Request("add(1, 2)")));
        }
        other => panic!("unexpected {other:?}"),
    }
    assert!(matches!(request.after_send::<i32, ()>(true, Reply::Pending), Progress::Pending));
    assert!(!request.is_terminated());
    assert!(matches!(request.begin_poll(Signal::Quiet), Begin::AwaitReply));
    assert!(matches!(request.on_reply::<i32, ()>(Reply::Pending), Progress::Pending));
    let reply: Reply<Outcome> = Reply::Arrived(Ok(3));
    assert!(matches!(request.on_reply(reply), Progress::Ready(Ok(3))));
    assert!(request.is_terminated());
    assert!(matches!(request.begin_poll(Signal::Quiet), Begin::Idle));
    assert!(request.on_drop::<&str>().is_none());
}

#[test]
fn value_request_fails_when_consumer_is_gone() {
    let mut request = ValueRequest::new(1, ());
    assert!(matches!(request.begin_poll(Signal::Quiet), Begin::Send(_)));
    let r: Progress<Outcome> = request.after_send(false, Reply::Pending);
    assert!(matches!(r, Progress::Ready(Err(Error::Shutdown))));
    assert!(request.is_terminated());

    let mut request = ValueRequest::new(2, ());
    request.begin_poll(Signal::Quiet);
    let r: Progress<Outcome> = request.after_send(true, Reply::Cancelled);
    assert!(matches!(r, Progress::Ready(Err(Error::Dropped))));
    assert!(request.is_terminated());
}

#[test]
fn value_request_abort() {
    let mut request = ValueRequest::new(8, ());
    // without an aborter the signal is not looked at
    request.begin_poll(Signal::Fired);
    request.after_send::<i32, ()>(true, Reply::Pending);
    let (aborter, create) = request.aborter();
    assert!(create);
    assert_eq!(aborter.request_id(), 8);
    let (_, create_again) = request.aborter();
    assert!(!create_again);
    assert!(matches!(request.on_drop::<()>(), Some(m) if m.id == 8 && matches!(m.payload, Payload::Abort)));
    assert!(matches!(request.begin_poll(Signal::Cancelled), Begin::AwaitReply));
    assert!(matches!(request.begin_poll(Signal::Fired), Begin::Aborted));
    assert!(request.is_terminated());
    assert!(request.on_drop::<()>().is_none());
}

#[test]
fn aborter_aborts_once() {
    let aborter = Aborter::new(4);
    let mut switch = Some("switch");
    match aborter.abort::<(), _>(&mut switch) {
        Some((message, s)) => {
            assert_eq!(message.id, 4);
            assert!(matches!(message.payload, Payload::Abort));
            assert_eq!(s, "switch");
        }
        None => panic!("first abort must act"),
    }
    assert!(switch.is_none());
    assert!(aborter.abort::<(), &str>(&mut switch).is_none());
    let copy = aborter;
    assert!(copy.abort::<(), &str>(&mut switch).is_none());
}

#[test]
fn stream_request_opens_stream() {
    let mut request = StreamRequest::new(11, "numbers");
    let (_, create) = request.aborter();
    assert!(create);
    assert!(matches!(request.begin_poll(Signal::Quiet), Begin::Send(_)));
    let r = request.after_send::<()>(true, Reply::Pending);
    assert!(matches!(r, Progress::Pending));
    assert!(matches!(request.begin_poll(Signal::Quiet), Begin::AwaitReply));
    let r = request.on_reply::<()>(Reply::Arrived(Ok(())));
    let mut stream = match r {
        Progress::Ready(Ok(stream)) => stream,
        other => panic!("unexpected {other:?}"),
    };
    assert!(request.is_terminated());
    // the stream took the aborter over
    let (_, create) = request.aborter();
    assert!(create);
    let (_, create) = stream.aborter();
    assert!(!create);

    assert!(stream.is_receiving());
    assert!(!stream.is_terminated());
    assert!(matches!(stream.on_drop::<()>(), Some(m) if m.id == 11 && matches!(m.payload, Payload::Abort)));
    assert!(matches!(stream.on_items(Item::Next(Some(1))), NextStep::Done(Progress::Ready(Some(1)))));
    assert!(matches!(stream.on_items::<i32>(Item::Pending), NextStep::CheckAbort));
    assert!(matches!(stream.on_abort::<i32>(Signal::Quiet), Progress::Pending));
    assert!(!stream.is_terminated());
    assert!(matches!(stream.on_abort::<i32>(Signal::Fired), Progress::Ready(None)));
    assert!(!stream.is_receiving());
    assert!(stream.is_terminated());
    assert!(matches!(stream.on_items(Item::Next(Some(2))), NextStep::Done(Progress::Ready(None))));
    assert!(stream.on_drop::<()>().is_none());
}

#[test]
fn stream_ends_with_its_items() {
    let mut request = StreamRequest::new(12, ());
    request.begin_poll(Signal::Quiet);
    let r = request.after_send::<()>(true, Reply::Arrived(Ok(())));
    let mut stream = match r {
        Progress::Ready(Ok(stream)) => stream,
        other => panic!("unexpected {other:?}"),
    };
    assert!(matches!(stream.on_items::<u8>(Item::Pending), NextStep::Done(Progress::Pending)));
    assert!(matches!(stream.on_items(Item::Next(Some(4u8))), NextStep::Done(Progress::Ready(Some(4)))));
    assert!(matches!(stream.on_items::<u8>(Item::Next(None)), NextStep::Done(Progress::Ready(None))));
    assert!(!stream.is_receiving());
    assert!(stream.is_terminated());
    assert!(matches!(stream.on_items::<u8>(Item::Pending), NextStep::Done(Progress::Ready(None))));
}

#[test]
fn stream_request_failures() {
    let mut request = StreamRequest::new(13, ());
    request.begin_poll(Signal::Quiet);
    let r = request.after_send::<()>(false, Reply::Pending);
    assert!(matches!(r, Progress::Ready(Err(Error::Shutdown))));
    assert!(request.is_terminated());

    let mut request = StreamRequest::new(14, ());
    request.begin_poll(Signal::Quiet);
    let r = request.after_send::<()>(true, Reply::Cancelled);
    assert!(matches!(r, Progress::Ready(Err(Error::Dropped))));
    assert!(request.is_terminated());

    let mut request = StreamRequest::new(15, ());
    assert!(request.on_drop::<()>().is_some());
    request.aborter();
    assert!(matches!(request.begin_poll(Signal::Fired), Begin::Aborted));
    assert!(request.is_terminated());
}

#[test]
fn stream_request_gets_shutdown_error() {
    let mut request = StreamRequest::new(16, ());
    let (_, create) = request.aborter();
    assert!(create);
    request.begin_poll(Signal::Quiet);
    assert!(matches!(request.after_send::<()>(true, Reply::Pending), Progress::Pending));
    let r = request.on_reply::<()>(Reply::Arrived(Err(Error::Shutdown)));
    assert!(matches!(r, Progress::Ready(Err(Error::Shutdown))));
    assert!(request.is_terminated());
    assert!(request.on_drop::<()>().is_none());
    // the request kept its abort channel: no stream took it
    let (_, create) = request.aborter();
    assert!(!create);
}
