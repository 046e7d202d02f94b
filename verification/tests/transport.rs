use actix_net::codec::framed::Framed;
use actix_net::poll::Poll;
use actix_net::utils::framed::{
    FramedMessage, FramedTransport, FramedTransportError, FramedTransportInner, TransportAction,
};
use std::collections::VecDeque;

type TErr = FramedTransportError<&'static str, &'static str, &'static str>;
type Transport = FramedTransport<(), (), (), VecDeque<Poll<Option<FramedMessage<u8>>>>, &'static str, &'static str, &'static str>;

/// A world around the transport: frames waiting to be decoded, the service's
/// readiness, and whether flushing succeeds.
struct World {
    frames: VecDeque<Poll<Option<Result<u8, &'static str>>>>,
    service_ready: Poll<Result<(), &'static str>>,
    flush: Poll<Result<(), &'static str>>,
    encode_fails: bool,
    written: Vec<u8>,
}

/// Runs one poll of the transport. The service answers each request at once
/// with the request plus one.
fn poll(t: &mut Transport, inner: &mut FramedTransportInner<u8, &'static str>, w: &mut World) -> Poll<Result<(), TErr>> {
    let mut act: TransportAction<u8, u8, _, _, _> = t.poll_start(inner);
    loop {
        act = match act {
            TransportAction::PollServiceReady => {
                let r = match &w.service_ready {
                    Poll::Ready(Ok(())) => Poll::Ready(Ok(())),
                    Poll::Ready(Err(e)) => Poll::Ready(Err(*e)),
                    Poll::Pending => Poll::Pending,
                };
                t.on_service_ready(inner, r)
            }
            TransportAction::PollFrame => {
                let f = w.frames.pop_front().unwrap_or(Poll::Pending);
                t.on_frame(inner, f)
            }
            TransportAction::Call(req) => {
                inner.push(Ok(req + 1));
                let r = match &w.service_ready {
                    Poll::Ready(Ok(())) => Poll::Ready(Ok(())),
                    Poll::Ready(Err(e)) => Poll::Ready(Err(*e)),
                    Poll::Pending => Poll::Pending,
                };
                t.on_service_ready(inner, r)
            }
            TransportAction::Send(item) => {
                if w.encode_fails {
                    t.on_encoded(inner, Err("cannot encode"))
                } else {
                    t.get_framed_mut().force_send(&[item]);
                    t.on_encoded(inner, Ok(()))
                }
            }
            TransportAction::PollReceiver => {
                let ev = t.receiver_mut().map(|rx| rx.pop_front().unwrap_or(Poll::Pending)).unwrap_or(Poll::Ready(None));
                t.on_received(inner, ev)
            }
            TransportAction::Flush => {
                let ev = match &w.flush {
                    Poll::Ready(Ok(())) => {
                        let n = t.get_framed().write_buf().len();
                        w.written.extend_from_slice(&t.get_framed().write_buf()[..]);
                        t.get_framed_mut().consume_written(n);
                        Poll::Ready(Ok(()))
                    }
                    Poll::Ready(Err(e)) => Poll::Ready(Err(*e)),
                    Poll::Pending => Poll::Pending,
                };
                t.on_flushed(inner, ev)
            }
            TransportAction::Finish(p) => return p,
        };
    }
}

fn world(frames: Vec<Poll<Option<Result<u8, &'static str>>>>) -> World {
    World { frames: frames.into_iter().collect(), service_ready: Poll::Ready(Ok(())), flush: Poll::Ready(Ok(())), encode_fails: false, written: Vec::new() }
}

#[test]
fn transport_answers_frames_in_order_and_stops_at_end() {
    let mut t: Transport = FramedTransport::new(Framed::new((), ()), ());
    let mut inner = FramedTransportInner::new();
    let mut w = world(vec![Poll::Ready(Some(Ok(1))), Poll::Ready(Some(Ok(2))), Poll::Ready(Some(Ok(3))), Poll::Pending]);
    assert!(matches!(poll(&mut t, &mut inner, &mut w), Poll::Pending));
    assert_eq!(w.written, vec![2, 3, 4]);
    assert!(inner.is_empty());
    w.frames.push_back(Poll::Ready(None));
    assert!(matches!(poll(&mut t, &mut inner, &mut w), Poll::Ready(Ok(()))));
}

#[test]
fn transport_decode_error_ends_it() {
    let mut t: Transport = FramedTransport::new(Framed::new((), ()), ());
    let mut inner = FramedTransportInner::new();
    let mut w = world(vec![Poll::Ready(Some(Err("bad frame")))]);
    assert!(matches!(poll(&mut t, &mut inner, &mut w), Poll::Ready(Err(FramedTransportError::Decoder("bad frame")))));
}

#[test]
fn transport_service_error_waits_for_pending_bytes() {
    let mut t: Transport = FramedTransport::new(Framed::new((), ()), ());
    let mut inner = FramedTransportInner::new();
    let mut w = world(vec![Poll::Ready(Some(Ok(7))), Poll::Pending]);
    w.flush = Poll::Pending;
    // the response is queued but cannot be flushed yet
    assert!(matches!(poll(&mut t, &mut inner, &mut w), Poll::Pending));
    assert!(!t.get_framed().is_write_buf_empty());
    w.service_ready = Poll::Ready(Err("down"));
    // the error waits while bytes are pending
    assert!(matches!(poll(&mut t, &mut inner, &mut w), Poll::Pending));
    w.flush = Poll::Ready(Ok(()));
    assert!(matches!(poll(&mut t, &mut inner, &mut w), Poll::Ready(Err(FramedTransportError::Service("down")))));
    assert_eq!(w.written, vec![8]);
}

#[test]
fn transport_failed_response_is_a_service_error() {
    let mut t: Transport = FramedTransport::new(Framed::new((), ()), ());
    let mut inner = FramedTransportInner::new();
    inner.push(Err("call failed"));
    let mut w = world(vec![Poll::Pending]);
    assert!(matches!(poll(&mut t, &mut inner, &mut w), Poll::Ready(Err(FramedTransportError::Service("call failed")))));
}

#[test]
fn transport_writes_receiver_messages_and_closes() {
    let rx: VecDeque<Poll<Option<FramedMessage<u8>>>> =
        vec![Poll::Ready(Some(FramedMessage::Message(42))), Poll::Pending, Poll::Ready(Some(FramedMessage::Close))].into_iter().collect();
    let mut t: Transport = FramedTransport::new(Framed::new((), ()), ()).set_receiver(rx);
    let mut inner = FramedTransportInner::new();
    let mut w = world(vec![Poll::Pending, Poll::Pending]);
    assert!(matches!(poll(&mut t, &mut inner, &mut w), Poll::Pending));
    assert_eq!(w.written, vec![42]);
    assert!(matches!(poll(&mut t, &mut inner, &mut w), Poll::Ready(Ok(()))));
    let _ = t.get_mut();
    let _ = t.get_ref();
}

#[test]
fn transport_error_conversion() {
    let e: TErr = "svc".into();
    assert!(matches!(e, FramedTransportError::Service("svc")));
}

#[test]
fn transport_encoder_errors_end_it() {
    let mut t: Transport = FramedTransport::new(Framed::new((), ()), ());
    let mut inner = FramedTransportInner::new();
    let mut w = world(vec![Poll::Ready(Some(Ok(1))), Poll::Pending]);
    w.encode_fails = true;
    assert!(matches!(poll(&mut t, &mut inner, &mut w), Poll::Ready(Err(FramedTransportError::Encoder("cannot encode")))));

    let mut t: Transport = FramedTransport::new(Framed::new((), ()), ());
    let mut inner = FramedTransportInner::new();
    let mut w = world(vec![Poll::Ready(Some(Ok(1))), Poll::Pending]);
    w.flush = Poll::Ready(Err("broken pipe"));
    assert!(matches!(poll(&mut t, &mut inner, &mut w), Poll::Ready(Err(FramedTransportError::Encoder("broken pipe")))));
}

#[test]
fn framed_transport_error_text() {
    let s: FramedTransportError<u8, &str, char> = FramedTransportError::Service(3);
    assert_eq!(s.debug_string(), "FramedTransportError::Service(3)");
    assert_eq!(s.to_string(), "3");
    let e: FramedTransportError<u8, &str, char> = FramedTransportError::Encoder("full");
    assert_eq!(e.debug_string(), "FramedTransportError::Encoder(\"full\")");
    assert_eq!(e.to_string(), "\"full\"");
    // a decoder error is written as an encoder error is
    let d: FramedTransportError<u8, &str, char> = FramedTransportError::Decoder('x');
    assert_eq!(d.debug_string(), "FramedTransportError::Encoder('x')");
    assert_eq!(d.to_string(), "'x'");
}
