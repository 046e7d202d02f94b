//! Framed dispatcher: reads frames from a `Framed` object, hands each to a
//! service, and writes the service's responses (and messages from an optional
//! receiver) back through the same `Framed` object.
//!
//! Polling the dispatcher alternates decisions with work that only the caller
//! can do: polling the service and the receiver, decoding frames, encoding and
//! flushing. `FramedTransport` holds the decisions as a state machine: each
//! method takes the outcome of the work it asked for last and returns the next
//! piece of work, or the result of the poll.
use vstd::prelude::*;

use crate::codec::framed::Framed;
use crate::poll::Poll;
use crate::text::debug_text;
use vstd::string::to_string_from_display_ensures;
use std::collections::VecDeque;

verus! {

/// Framed transport errors
#[derive(Debug)]
pub enum FramedTransportError<E, EE, DE> {
    Service(E),
    Encoder(EE),
    Decoder(DE),
}

impl<E: core::fmt::Debug, EE: core::fmt::Debug, DE: core::fmt::Debug> FramedTransportError<E, EE, DE> {
    /// The error's debug text: the inner error's debug text in
    /// `FramedTransportError::Service(..)` or `FramedTransportError::Encoder(..)`;
    /// a decoder error is written as an encoder error is.
    pub fn debug_string(&self) -> (r: String)
        ensures
            self is Service ==> exists|d: Seq<char>| r@ == "FramedTransportError::Service("@ + d + ")"@,
            !(self is Service) ==> exists|d: Seq<char>| r@ == "FramedTransportError::Encoder("@ + d + ")"@,
    {
        let (mut r, d) = match self {
            FramedTransportError::Service(e) => (String::from_str("FramedTransportError::Service("), debug_text(e)),
            FramedTransportError::Encoder(e) => (String::from_str("FramedTransportError::Encoder("), debug_text(e)),
            FramedTransportError::Decoder(e) => (String::from_str("FramedTransportError::Encoder("), debug_text(e)),
        };
        let ghost r0 = r@;
        r.append(d.as_str());
        r.append(")");
        assert(r@ == r0 + d@ + ")"@);
        r
    }
}

impl<E: core::fmt::Display, EE: core::fmt::Debug, DE: core::fmt::Debug> FramedTransportError<E, EE, DE> {
    /// The error's message: that of a service error; the debug text of an
    /// encoder or decoder error.
    pub fn to_string(&self) -> (r: String)
        ensures
            self matches FramedTransportError::Service(e) ==> to_string_from_display_ensures::<E>(&e, r),
    {
        match self {
            FramedTransportError::Service(e) => e.to_string(),
            FramedTransportError::Encoder(e) => debug_text(e),
            FramedTransportError::Decoder(e) => debug_text(e),
        }
    }
}

impl<E, EE, DE> From<E> for FramedTransportError<E, EE, DE> {
    fn from(err: E) -> (r: Self) {
        FramedTransportError::Service(err)
    }
}

impl<E, EE, DE> vstd::std_specs::convert::FromSpecImpl<E> for FramedTransportError<E, EE, DE> {
    open spec fn obeys_from_spec() -> bool {
        true
    }

    open spec fn from_spec(err: E) -> Self {
        FramedTransportError::Service(err)
    }
}

/// A message for the transport to write: a frame, or the request to flush and stop.
pub enum FramedMessage<T> {
    Message(T),
    Close,
}

/// The transport's state between polls.
pub enum TransportState<E, EE, DE> {
    Processing,
    Error(FramedTransportError<E, EE, DE>),
    FramedError(FramedTransportError<E, EE, DE>),
    FlushAndStop,
    Stopping,
}

/// Which poll the write loop runs for: an ordinary one, or one that already
/// holds an error to report once pending bytes are written.
pub enum WriteMode<E, EE, DE> {
    Processing,
    Error(FramedTransportError<E, EE, DE>),
}

/// What a running write loop waits for.
pub enum WriteWait {
    /// the encoding of a response taken from the response buffer
    SentBuffered,
    /// the encoding of a message taken from the receiver
    SentReceived,
    /// the next message of the receiver
    Received,
    /// the outcome of flushing the write buffer
    Flushed,
}

/// Where a poll of the transport stands.
pub enum Cursor<E, EE, DE> {
    /// no poll is under way
    Idle,
    /// the read loop waits for the service's readiness
    ServiceReady,
    /// the read loop waits for the next decoded frame
    Frame,
    /// the write loop runs
    Write { mode: WriteMode<E, EE, DE>, rx_done: bool, wait: WriteWait },
    /// a flush before stopping is under way
    FlushStop,
}

/// The work the transport asks for next, or the end of the poll.
pub enum TransportAction<Req, I, E, EE, DE> {
    /// poll the service's readiness; report it to `on_service_ready`
    PollServiceReady,
    /// poll the framed object for the next decoded frame; report it to `on_frame`
    PollFrame,
    /// call the service with this request and let the call run; then poll the
    /// service's readiness and report it to `on_service_ready`
    Call(Req),
    /// encode this item and queue it with `Framed::force_send`; report the
    /// encoder's outcome to `on_encoded`
    Send(I),
    /// poll the receiver; report it to `on_received`
    PollReceiver,
    /// flush the framed object; report it to `on_flushed`
    Flush,
    /// the poll is over with this result
    Finish(Poll<Result<(), FramedTransportError<E, EE, DE>>>),
}

/// Responses of finished service calls, oldest first, waiting to be written.
pub struct FramedTransportInner<I, E> {
    buf: VecDeque<Result<I, E>>,
}

impl<I, E> FramedTransportInner<I, E> {
    /// The waiting responses, oldest first.
    pub closed spec fn responses(&self) -> Seq<Result<I, E>> {
        self.buf@
    }

    pub fn new() -> (r: Self)
        ensures
            r.responses() == Seq::<Result<I, E>>::empty(),
    {
        FramedTransportInner { buf: VecDeque::new() }
    }

    /// Records the outcome of a finished service call after those already waiting.
    pub fn push(&mut self, item: Result<I, E>)
        ensures
            final(self).responses() == old(self).responses().push(item),
    {
        self.buf.push_back(item);
    }

    pub fn is_empty(&self) -> (r: bool)
        ensures
            r == (self.responses().len() == 0),
    {
        self.buf.len() == 0
    }
}

/// The next step of a write loop, before the caller has to act.
pub enum WriteProgress<I> {
    Send(I),
    PollReceiver,
    Flush,
    Done(bool),
}

/// What the write loop does from its top, given whether the write buffer is
/// full, the waiting responses, whether the receiver is done and whether the
/// write buffer is empty: send the oldest response, poll the receiver, flush,
/// or stop without having changed the state.
pub open spec fn write_top_progress<I, E>(
    full: bool,
    buf: Seq<Result<I, E>>,
    rx_done: bool,
    write_empty: bool,
) -> WriteProgress<I> {
    if full {
        flush_check_progress(write_empty)
    } else if buf.len() > 0 {
        match buf[0] {
            Ok(msg) => WriteProgress::Send(msg),
            Err(_) => WriteProgress::Done(true),
        }
    } else if !rx_done {
        WriteProgress::PollReceiver
    } else {
        flush_check_progress(write_empty)
    }
}

/// After the inner loop: flush while bytes are pending, else stop.
pub open spec fn flush_check_progress<I>(write_empty: bool) -> WriteProgress<I> {
    if write_empty {
        WriteProgress::Done(false)
    } else {
        WriteProgress::Flush
    }
}


/// The outcome of one step of a poll: the action returned, and the state, the
/// cursor and the waiting responses afterwards.
pub struct TransportStep<Req, I, E, EE, DE> {
    pub action: TransportAction<Req, I, E, EE, DE>,
    pub state: TransportState<E, EE, DE>,
    pub cursor: Cursor<E, EE, DE>,
    pub responses: Seq<Result<I, E>>,
}

/// What the write loop's top does to the state: a failed response taken from
/// the buffer becomes the error state.
pub open spec fn write_top_state<I, E, EE, DE>(
    full: bool,
    buf: Seq<Result<I, E>>,
    state: TransportState<E, EE, DE>,
) -> TransportState<E, EE, DE> {
    if !full && buf.len() > 0 {
        match buf[0] {
            Ok(_) => state,
            Err(e) => TransportState::Error(FramedTransportError::Service(e)),
        }
    } else {
        state
    }
}

/// What the write loop's top does to the waiting responses: it takes the
/// oldest one when the write buffer is not full.
pub open spec fn write_top_buf<I, E>(full: bool, buf: Seq<Result<I, E>>) -> Seq<Result<I, E>> {
    if !full && buf.len() > 0 {
        buf.drop_first()
    } else {
        buf
    }
}

/// The loop's check: when the receiver is done and no response waits, leave
/// the inner loop; else go round again.
pub open spec fn write_check_progress<I, E>(
    full: bool,
    buf: Seq<Result<I, E>>,
    rx_done: bool,
    write_empty: bool,
) -> WriteProgress<I> {
    if rx_done && buf.len() == 0 {
        flush_check_progress(write_empty)
    } else {
        write_top_progress(full, buf, rx_done, write_empty)
    }
}

/// The loop's check, its effect on the state.
pub open spec fn write_check_state<I, E, EE, DE>(
    full: bool,
    buf: Seq<Result<I, E>>,
    rx_done: bool,
    state: TransportState<E, EE, DE>,
) -> TransportState<E, EE, DE> {
    if rx_done && buf.len() == 0 {
        state
    } else {
        write_top_state(full, buf, state)
    }
}

/// The loop's check, its effect on the waiting responses.
pub open spec fn write_check_buf<I, E>(full: bool, buf: Seq<Result<I, E>>, rx_done: bool) -> Seq<
    Result<I, E>,
> {
    if rx_done && buf.len() == 0 {
        buf
    } else {
        write_top_buf(full, buf)
    }
}

/// How a write loop in error mode ends: with the error once nothing remains to
/// be written or the loop changed the state; else the error state is kept for
/// the next poll.
pub open spec fn error_finish<Req, I, E, EE, DE>(
    err: FramedTransportError<E, EE, DE>,
    changed: bool,
    write_empty: bool,
    state: TransportState<E, EE, DE>,
    buf: Seq<Result<I, E>>,
) -> TransportStep<Req, I, E, EE, DE> {
    if changed || write_empty {
        TransportStep { action: TransportAction::Finish(Poll::Ready(Err(err))), state, cursor: Cursor::Idle, responses: buf }
    } else {
        TransportStep {
            action: TransportAction::Finish(Poll::Pending),
            state: TransportState::Error(err),
            cursor: Cursor::Idle,
            responses: buf,
        }
    }
}

/// A write loop that needs outside work waits for it; one that is done ends
/// as its mode says (an ordinary loop that is done with a changed state is
/// handled by the caller, which polls again).
pub open spec fn suspend_step<Req, I, E, EE, DE>(
    mode: WriteMode<E, EE, DE>,
    rx_done: bool,
    progress: WriteProgress<I>,
    write_empty: bool,
    state: TransportState<E, EE, DE>,
    buf: Seq<Result<I, E>>,
) -> TransportStep<Req, I, E, EE, DE> {
    match progress {
        WriteProgress::Send(msg) => TransportStep {
            action: TransportAction::Send(msg),
            state,
            cursor: Cursor::Write { mode, rx_done, wait: WriteWait::SentBuffered },
            responses: buf,
        },
        WriteProgress::PollReceiver => TransportStep {
            action: TransportAction::PollReceiver,
            state,
            cursor: Cursor::Write { mode, rx_done, wait: WriteWait::Received },
            responses: buf,
        },
        WriteProgress::Flush => TransportStep {
            action: TransportAction::Flush,
            state,
            cursor: Cursor::Write { mode, rx_done, wait: WriteWait::Flushed },
            responses: buf,
        },
        WriteProgress::Done(changed) => match mode {
            WriteMode::Error(err) => error_finish(err, changed, write_empty, state, buf),
            WriteMode::Processing => TransportStep {
                action: TransportAction::Finish(Poll::Pending),
                state,
                cursor: Cursor::Idle,
                responses: buf,
            },
        },
    }
}

/// The start of a poll, from the state between polls.
pub open spec fn start_step<Req, I, E, EE, DE>(
    state: TransportState<E, EE, DE>,
    full: bool,
    write_empty: bool,
    rx_none: bool,
    buf: Seq<Result<I, E>>,
) -> TransportStep<Req, I, E, EE, DE> {
    match state {
        TransportState::Processing => TransportStep {
            action: TransportAction::PollServiceReady,
            state: TransportState::Processing,
            cursor: Cursor::ServiceReady,
            responses: buf,
        },
        TransportState::Error(err) => if write_empty {
            TransportStep {
                action: TransportAction::Finish(Poll::Ready(Err(err))),
                state: TransportState::Processing,
                cursor: Cursor::Idle,
                responses: buf,
            }
        } else {
            suspend_step(
                WriteMode::Error(err),
                rx_none,
                write_top_progress(full, buf, rx_none, write_empty),
                write_empty,
                write_top_state(full, buf, TransportState::Processing),
                write_top_buf(full, buf),
            )
        },
        TransportState::FlushAndStop => if write_empty {
            TransportStep {
                action: TransportAction::Finish(Poll::Ready(Ok(()))),
                state: TransportState::Processing,
                cursor: Cursor::Idle,
                responses: buf,
            }
        } else {
            TransportStep {
                action: TransportAction::Flush,
                state: TransportState::Processing,
                cursor: Cursor::FlushStop,
                responses: buf,
            }
        },
        TransportState::FramedError(err) => TransportStep {
            action: TransportAction::Finish(Poll::Ready(Err(err))),
            state: TransportState::Processing,
            cursor: Cursor::Idle,
            responses: buf,
        },
        TransportState::Stopping => TransportStep {
            action: TransportAction::Finish(Poll::Ready(Ok(()))),
            state: TransportState::Processing,
            cursor: Cursor::Idle,
            responses: buf,
        },
    }
}

/// A write loop that reached `progress`: in an ordinary poll, a loop that is
/// done after changing the state polls again at once.
pub open spec fn write_step<Req, I, E, EE, DE>(
    mode: WriteMode<E, EE, DE>,
    rx_done: bool,
    progress: WriteProgress<I>,
    full: bool,
    write_empty: bool,
    rx_none: bool,
    state: TransportState<E, EE, DE>,
    buf: Seq<Result<I, E>>,
) -> TransportStep<Req, I, E, EE, DE> {
    if mode is Processing && progress == WriteProgress::<I>::Done(true) {
        start_step(state, full, write_empty, rx_none, buf)
    } else {
        suspend_step(mode, rx_done, progress, write_empty, state, buf)
    }
}

/// The write loop from its top.
pub open spec fn top_step<Req, I, E, EE, DE>(
    mode: WriteMode<E, EE, DE>,
    rx_done: bool,
    full: bool,
    write_empty: bool,
    rx_none: bool,
    state: TransportState<E, EE, DE>,
    buf: Seq<Result<I, E>>,
) -> TransportStep<Req, I, E, EE, DE> {
    write_step(
        mode,
        rx_done,
        write_top_progress(full, buf, rx_done, write_empty),
        full,
        write_empty,
        rx_none,
        write_top_state(full, buf, state),
        write_top_buf(full, buf),
    )
}

/// The write loop from its check.
pub open spec fn check_step<Req, I, E, EE, DE>(
    mode: WriteMode<E, EE, DE>,
    rx_done: bool,
    full: bool,
    write_empty: bool,
    rx_none: bool,
    state: TransportState<E, EE, DE>,
    buf: Seq<Result<I, E>>,
) -> TransportStep<Req, I, E, EE, DE> {
    write_step(
        mode,
        rx_done,
        write_check_progress(full, buf, rx_done, write_empty),
        full,
        write_empty,
        rx_none,
        write_check_state(full, buf, rx_done, state),
        write_check_buf(full, buf, rx_done),
    )
}

/// The read loop after the service reported its readiness.
pub open spec fn service_ready_step<Req, I, E, EE, DE>(
    ev: Poll<Result<(), E>>,
    full: bool,
    write_empty: bool,
    rx_none: bool,
    state: TransportState<E, EE, DE>,
    buf: Seq<Result<I, E>>,
) -> TransportStep<Req, I, E, EE, DE> {
    match ev {
        Poll::Ready(Ok(())) => TransportStep { action: TransportAction::PollFrame, state, cursor: Cursor::Frame, responses: buf },
        Poll::Ready(Err(e)) => start_step(
            TransportState::Error(FramedTransportError::Service(e)),
            full,
            write_empty,
            rx_none,
            buf,
        ),
        Poll::Pending => top_step(WriteMode::Processing, rx_none, full, write_empty, rx_none, state, buf),
    }
}

/// The read loop after the framed object reported the next frame.
pub open spec fn frame_step<Req, I, E, EE, DE>(
    ev: Poll<Option<Result<Req, DE>>>,
    full: bool,
    write_empty: bool,
    rx_none: bool,
    state: TransportState<E, EE, DE>,
    buf: Seq<Result<I, E>>,
) -> TransportStep<Req, I, E, EE, DE> {
    match ev {
        Poll::Ready(Some(Ok(req))) => TransportStep {
            action: TransportAction::Call(req),
            state,
            cursor: Cursor::ServiceReady,
            responses: buf,
        },
        Poll::Ready(Some(Err(e))) => start_step(
            TransportState::FramedError(FramedTransportError::Decoder(e)),
            full,
            write_empty,
            rx_none,
            buf,
        ),
        Poll::Ready(None) => start_step(TransportState::Stopping, full, write_empty, rx_none, buf),
        Poll::Pending => top_step(WriteMode::Processing, rx_none, full, write_empty, rx_none, state, buf),
    }
}

/// The write loop after an item was encoded (or failed to be).
pub open spec fn encoded_step<Req, I, E, EE, DE>(
    res: Result<(), EE>,
    mode: WriteMode<E, EE, DE>,
    rx_done: bool,
    wait: WriteWait,
    full: bool,
    write_empty: bool,
    rx_none: bool,
    state: TransportState<E, EE, DE>,
    buf: Seq<Result<I, E>>,
) -> TransportStep<Req, I, E, EE, DE> {
    match res {
        Err(e) => write_step(
            mode,
            rx_done,
            WriteProgress::Done(true),
            full,
            write_empty,
            rx_none,
            TransportState::FramedError(FramedTransportError::Encoder(e)),
            buf,
        ),
        Ok(()) => if wait is SentBuffered && !rx_done {
            TransportStep {
                action: TransportAction::PollReceiver,
                state,
                cursor: Cursor::Write { mode, rx_done, wait: WriteWait::Received },
                responses: buf,
            }
        } else {
            check_step(mode, rx_done, full, write_empty, rx_none, state, buf)
        },
    }
}

/// The write loop after the receiver was polled. `rx_none` is whether the
/// transport holds no receiver after the step.
pub open spec fn received_step<Req, I, E, EE, DE>(
    ev: Poll<Option<FramedMessage<I>>>,
    mode: WriteMode<E, EE, DE>,
    rx_done: bool,
    full: bool,
    write_empty: bool,
    rx_none: bool,
    state: TransportState<E, EE, DE>,
    buf: Seq<Result<I, E>>,
) -> TransportStep<Req, I, E, EE, DE> {
    match ev {
        Poll::Ready(Some(FramedMessage::Message(msg))) => TransportStep {
            action: TransportAction::Send(msg),
            state,
            cursor: Cursor::Write { mode, rx_done, wait: WriteWait::SentReceived },
            responses: buf,
        },
        Poll::Ready(Some(FramedMessage::Close)) => write_step(
            mode,
            rx_done,
            WriteProgress::Done(true),
            full,
            write_empty,
            rx_none,
            TransportState::FlushAndStop,
            buf,
        ),
        _ => check_step(mode, true, full, write_empty, rx_none, state, buf),
    }
}

/// The write loop after a flush of the write buffer.
pub open spec fn flushed_step<Req, I, E, EE, DE>(
    ev: Poll<Result<(), EE>>,
    mode: WriteMode<E, EE, DE>,
    rx_done: bool,
    full: bool,
    write_empty: bool,
    rx_none: bool,
    state: TransportState<E, EE, DE>,
    buf: Seq<Result<I, E>>,
) -> TransportStep<Req, I, E, EE, DE> {
    match ev {
        Poll::Pending => write_step(mode, rx_done, WriteProgress::Done(false), full, write_empty, rx_none, state, buf),
        Poll::Ready(Err(e)) => write_step(
            mode,
            rx_done,
            WriteProgress::Done(true),
            full,
            write_empty,
            rx_none,
            TransportState::FramedError(FramedTransportError::Encoder(e)),
            buf,
        ),
        Poll::Ready(Ok(())) => top_step(mode, rx_done, full, write_empty, rx_none, state, buf),
    }
}

/// The flush before stopping: whatever the flush reports but `Pending`, the
/// transport has stopped.
pub open spec fn flush_stop_step<Req, I, E, EE, DE>(
    ev: Poll<Result<(), EE>>,
    state: TransportState<E, EE, DE>,
    buf: Seq<Result<I, E>>,
) -> TransportStep<Req, I, E, EE, DE> {
    match ev {
        Poll::Pending => TransportStep { action: TransportAction::Finish(Poll::Pending), state, cursor: Cursor::Idle, responses: buf },
        Poll::Ready(_) => TransportStep {
            action: TransportAction::Finish(Poll::Ready(Ok(()))),
            state,
            cursor: Cursor::Idle,
            responses: buf,
        },
    }
}


/// `after` is what is left of `before` once some of its first elements were
/// taken away.
pub open spec fn taken_from_front<X>(after: Seq<X>, before: Seq<X>) -> bool {
    after.len() <= before.len() && after =~= before.subrange(before.len() - after.len(), before.len() as int)
}

proof fn taken_from_front_trans<X>(a: Seq<X>, b: Seq<X>, c: Seq<X>)
    requires
        taken_from_front(a, b),
        taken_from_front(b, c),
    ensures
        taken_from_front(a, c),
{
    assert(a =~= c.subrange(c.len() - a.len(), c.len() as int));
}

proof fn top_buf_from_front<I, E>(full: bool, buf: Seq<Result<I, E>>)
    ensures
        taken_from_front(write_top_buf(full, buf), buf),
        taken_from_front(buf, buf),
{
    assert(buf =~= buf.subrange(0, buf.len() as int));
    if !full && buf.len() > 0 {
        assert(buf.drop_first() =~= buf.subrange(1, buf.len() as int));
    }
}

proof fn start_from_front<Req, I, E, EE, DE>(
    state: TransportState<E, EE, DE>,
    full: bool,
    write_empty: bool,
    rx_none: bool,
    buf: Seq<Result<I, E>>,
)
    ensures
        taken_from_front(start_step::<Req, I, E, EE, DE>(state, full, write_empty, rx_none, buf).responses, buf),
{
    top_buf_from_front(full, buf);
}

proof fn write_step_from_front<Req, I, E, EE, DE>(
    mode: WriteMode<E, EE, DE>,
    rx_done: bool,
    progress: WriteProgress<I>,
    full: bool,
    write_empty: bool,
    rx_none: bool,
    state: TransportState<E, EE, DE>,
    buf: Seq<Result<I, E>>,
)
    ensures
        taken_from_front(
            write_step::<Req, I, E, EE, DE>(mode, rx_done, progress, full, write_empty, rx_none, state, buf).responses,
            buf,
        ),
{
    top_buf_from_front(full, buf);
    start_from_front::<Req, I, E, EE, DE>(state, full, write_empty, rx_none, buf);
}

proof fn top_check_from_front<Req, I, E, EE, DE>(
    mode: WriteMode<E, EE, DE>,
    rx_done: bool,
    full: bool,
    write_empty: bool,
    rx_none: bool,
    state: TransportState<E, EE, DE>,
    buf: Seq<Result<I, E>>,
)
    ensures
        taken_from_front(top_step::<Req, I, E, EE, DE>(mode, rx_done, full, write_empty, rx_none, state, buf).responses, buf),
        taken_from_front(check_step::<Req, I, E, EE, DE>(mode, rx_done, full, write_empty, rx_none, state, buf).responses, buf),
{
    top_buf_from_front(full, buf);
    let b1 = write_top_buf(full, buf);
    write_step_from_front::<Req, I, E, EE, DE>(
        mode,
        rx_done,
        write_top_progress(full, buf, rx_done, write_empty),
        full,
        write_empty,
        rx_none,
        write_top_state(full, buf, state),
        b1,
    );
    taken_from_front_trans(top_step::<Req, I, E, EE, DE>(mode, rx_done, full, write_empty, rx_none, state, buf).responses, b1, buf);
    let b2 = write_check_buf(full, buf, rx_done);
    write_step_from_front::<Req, I, E, EE, DE>(
        mode,
        rx_done,
        write_check_progress(full, buf, rx_done, write_empty),
        full,
        write_empty,
        rx_none,
        write_check_state(full, buf, rx_done, state),
        b2,
    );
    taken_from_front_trans(check_step::<Req, I, E, EE, DE>(mode, rx_done, full, write_empty, rx_none, state, buf).responses, b2, buf);
}

/// Responses are written in the order their calls finished: whatever a step
/// of a poll does, the responses still waiting afterwards are those that
/// waited before, less some taken from the front; and the write loop takes a
/// response only when the write buffer is not full, sending it if it is a
/// response and not an error.
pub proof fn responses_leave_in_order<Req, I, E, EE, DE>(
    state: TransportState<E, EE, DE>,
    mode: WriteMode<E, EE, DE>,
    rx_done: bool,
    wait: WriteWait,
    full: bool,
    write_empty: bool,
    rx_none: bool,
    buf: Seq<Result<I, E>>,
    ready: Poll<Result<(), E>>,
    frame: Poll<Option<Result<Req, DE>>>,
    encoded: Result<(), EE>,
    received: Poll<Option<FramedMessage<I>>>,
    flushed: Poll<Result<(), EE>>,
)
    ensures
        taken_from_front(start_step::<Req, I, E, EE, DE>(state, full, write_empty, rx_none, buf).responses, buf),
        taken_from_front(service_ready_step::<Req, I, E, EE, DE>(ready, full, write_empty, rx_none, state, buf).responses, buf),
        taken_from_front(frame_step::<Req, I, E, EE, DE>(frame, full, write_empty, rx_none, state, buf).responses, buf),
        taken_from_front(
            encoded_step::<Req, I, E, EE, DE>(encoded, mode, rx_done, wait, full, write_empty, rx_none, state, buf).responses,
            buf,
        ),
        taken_from_front(
            received_step::<Req, I, E, EE, DE>(received, mode, rx_done, full, write_empty, rx_none, state, buf).responses,
            buf,
        ),
        taken_from_front(
            flushed_step::<Req, I, E, EE, DE>(flushed, mode, rx_done, full, write_empty, rx_none, state, buf).responses,
            buf,
        ),
        full ==> write_top_buf(full, buf) == buf && !(write_top_progress(full, buf, rx_done, write_empty) is Send),
        !full && buf.len() > 0 ==> write_top_buf(full, buf) == buf.drop_first() && match buf[0] {
            Ok(msg) => write_top_progress(full, buf, rx_done, write_empty) == WriteProgress::Send(msg),
            Err(e) => write_top_state(full, buf, state) == TransportState::<E, EE, DE>::Error(
                FramedTransportError::Service(e),
            ),
        },
{
    top_buf_from_front(full, buf);
    start_from_front::<Req, I, E, EE, DE>(state, full, write_empty, rx_none, buf);
    top_check_from_front::<Req, I, E, EE, DE>(WriteMode::Processing, rx_none, full, write_empty, rx_none, state, buf);
    top_check_from_front::<Req, I, E, EE, DE>(mode, rx_done, full, write_empty, rx_none, state, buf);
    top_check_from_front::<Req, I, E, EE, DE>(mode, true, full, write_empty, rx_none, state, buf);
    start_from_front::<Req, I, E, EE, DE>(TransportState::Error(FramedTransportError::Service(arbitrary())), full, write_empty, rx_none, buf);
    match ready {
        Poll::Ready(Err(e)) => start_from_front::<Req, I, E, EE, DE>(TransportState::Error(FramedTransportError::Service(e)), full, write_empty, rx_none, buf),
        _ => {},
    }
    match frame {
        Poll::Ready(Some(Err(e))) => start_from_front::<Req, I, E, EE, DE>(TransportState::FramedError(FramedTransportError::Decoder(e)), full, write_empty, rx_none, buf),
        Poll::Ready(None) => start_from_front::<Req, I, E, EE, DE>(TransportState::Stopping, full, write_empty, rx_none, buf),
        _ => {},
    }
    match encoded {
        Err(e) => write_step_from_front::<Req, I, E, EE, DE>(mode, rx_done, WriteProgress::Done(true), full, write_empty, rx_none, TransportState::FramedError(FramedTransportError::Encoder(e)), buf),
        _ => {},
    }
    match received {
        Poll::Ready(Some(FramedMessage::Close)) => write_step_from_front::<Req, I, E, EE, DE>(mode, rx_done, WriteProgress::Done(true), full, write_empty, rx_none, TransportState::FlushAndStop, buf),
        _ => {},
    }
    match flushed {
        Poll::Pending => write_step_from_front::<Req, I, E, EE, DE>(mode, rx_done, WriteProgress::Done(false), full, write_empty, rx_none, state, buf),
        Poll::Ready(Err(e)) => write_step_from_front::<Req, I, E, EE, DE>(mode, rx_done, WriteProgress::Done(true), full, write_empty, rx_none, TransportState::FramedError(FramedTransportError::Encoder(e)), buf),
        _ => {},
    }
}

/// How the transport ends: a decoding error ends it with that error at once;
/// the end of the input ends it successfully; a close message flushes what is
/// pending and then ends it successfully; an error state ends the poll with
/// its error once nothing is left to write.
pub proof fn transport_endings<Req, I, E, EE, DE>(
    full: bool,
    write_empty: bool,
    rx_none: bool,
    state: TransportState<E, EE, DE>,
    buf: Seq<Result<I, E>>,
    e: DE,
    err: FramedTransportError<E, EE, DE>,
    rx_done: bool,
)
    ensures
        frame_step::<Req, I, E, EE, DE>(Poll::Ready(Some(Err(e))), full, write_empty, rx_none, state, buf).action
            == TransportAction::<Req, I, E, EE, DE>::Finish(Poll::Ready(Err(FramedTransportError::Decoder(e)))),
        frame_step::<Req, I, E, EE, DE>(Poll::Ready(None), full, write_empty, rx_none, state, buf).action
            == TransportAction::<Req, I, E, EE, DE>::Finish(Poll::Ready(Ok(()))),
        ({
            let s = received_step::<Req, I, E, EE, DE>(
                Poll::Ready(Some(FramedMessage::Close)),
                WriteMode::Processing,
                rx_done,
                full,
                write_empty,
                rx_none,
                state,
                buf,
            );
            if write_empty {
                s.action == TransportAction::<Req, I, E, EE, DE>::Finish(Poll::Ready(Ok(())))
            } else {
                s.action == TransportAction::<Req, I, E, EE, DE>::Flush && s.cursor is FlushStop
            }
        }),
        flush_stop_step::<Req, I, E, EE, DE>(Poll::Ready(Ok(())), state, buf).action
            == TransportAction::<Req, I, E, EE, DE>::Finish(Poll::Ready(Ok(()))),
        write_empty ==> start_step::<Req, I, E, EE, DE>(TransportState::Error(err), full, write_empty, rx_none, buf).action
            == TransportAction::<Req, I, E, EE, DE>::Finish(Poll::Ready(Err(err))),
        start_step::<Req, I, E, EE, DE>(TransportState::FramedError(err), full, write_empty, rx_none, buf).action
            == TransportAction::<Req, I, E, EE, DE>::Finish(Poll::Ready(Err(err))),
{
}


/// A full write buffer is flushed: whenever the write buffer holds at least
/// the high watermark of bytes and is not empty, the write loop flushes before
/// it takes any response or message, whether it runs from its top, goes round
/// from its check, runs after a flush, or runs because the service is not
/// ready or no frame is available. Such a step takes no response, keeps the
/// state and does not end the poll.
pub proof fn full_write_buffer_is_flushed<Req, I, E, EE, DE>(
    mode: WriteMode<E, EE, DE>,
    rx_done: bool,
    rx_none: bool,
    state: TransportState<E, EE, DE>,
    buf: Seq<Result<I, E>>,
)
    ensures
        write_top_progress::<I, E>(true, buf, rx_done, false) == WriteProgress::<I>::Flush,
        write_check_progress::<I, E>(true, buf, rx_done, false) == WriteProgress::<I>::Flush,
        top_step::<Req, I, E, EE, DE>(mode, rx_done, true, false, rx_none, state, buf) == (TransportStep {
            action: TransportAction::<Req, I, E, EE, DE>::Flush,
            state,
            cursor: Cursor::Write { mode, rx_done, wait: WriteWait::Flushed },
            responses: buf,
        }),
        check_step::<Req, I, E, EE, DE>(mode, rx_done, true, false, rx_none, state, buf) == (TransportStep {
            action: TransportAction::<Req, I, E, EE, DE>::Flush,
            state,
            cursor: Cursor::Write { mode, rx_done, wait: WriteWait::Flushed },
            responses: buf,
        }),
        flushed_step::<Req, I, E, EE, DE>(Poll::Ready(Ok(())), mode, rx_done, true, false, rx_none, state, buf).action
            == TransportAction::<Req, I, E, EE, DE>::Flush,
        service_ready_step::<Req, I, E, EE, DE>(Poll::Pending, true, false, rx_none, state, buf).action
            == TransportAction::<Req, I, E, EE, DE>::Flush,
        frame_step::<Req, I, E, EE, DE>(Poll::Pending, true, false, rx_none, state, buf).action
            == TransportAction::<Req, I, E, EE, DE>::Flush,
{
}

/// A write buffer that holds at least its high watermark of bytes is not
/// empty, where the high watermark is not zero (as `lw < hw` makes it).
pub proof fn full_write_buffer_not_empty<T, U>(framed: Framed<T, U>)
    requires
        framed.high_watermark() > 0,
    ensures
        framed.is_full_spec() ==> framed.write_bytes().len() > 0,
{
}

/// While the service is not ready the poll still writes: the step is the
/// write loop from its top, just as when no frame is available. With room in
/// the write buffer and a response waiting, the oldest response is sent and
/// taken from those waiting; with nothing waiting, the receiver is polled
/// while it is there; the poll ends pending only once nothing is left to send
/// or flush.
pub proof fn unready_service_still_writes<Req, I, E, EE, DE>(
    full: bool,
    write_empty: bool,
    rx_none: bool,
    state: TransportState<E, EE, DE>,
    buf: Seq<Result<I, E>>,
)
    ensures
        service_ready_step::<Req, I, E, EE, DE>(Poll::Pending, full, write_empty, rx_none, state, buf)
            == frame_step::<Req, I, E, EE, DE>(Poll::Pending, full, write_empty, rx_none, state, buf),
        ({
            let s = service_ready_step::<Req, I, E, EE, DE>(Poll::Pending, full, write_empty, rx_none, state, buf);
            &&& !full && buf.len() > 0 && buf[0] is Ok ==> s.action == TransportAction::<Req, I, E, EE, DE>::Send(
                buf[0]->Ok_0,
            ) && s.responses == buf.drop_first() && s.state == state
            &&& !full && buf.len() == 0 && !rx_none ==> s.action == TransportAction::<Req, I, E, EE, DE>::PollReceiver
                && s.responses == buf
            &&& full && !write_empty ==> s.action == TransportAction::<Req, I, E, EE, DE>::Flush
            &&& s.action == TransportAction::<Req, I, E, EE, DE>::Finish(Poll::Pending) && state is Processing
                ==> write_empty && (full || (buf.len() == 0 && rx_none))
        }),
{
}

/// Failures of the writer end an ordinary poll with the writer's error: an
/// item that fails to encode, or a flush that fails, ends the poll with that
/// error as an encoder error. A message from the receiver is sent as it is.
pub proof fn writer_failures_end_the_poll<Req, I, E, EE, DE>(
    rx_done: bool,
    wait: WriteWait,
    full: bool,
    write_empty: bool,
    rx_none: bool,
    state: TransportState<E, EE, DE>,
    buf: Seq<Result<I, E>>,
    e: EE,
    msg: I,
)
    ensures
        encoded_step::<Req, I, E, EE, DE>(Err(e), WriteMode::Processing, rx_done, wait, full, write_empty, rx_none, state, buf).action
            == TransportAction::<Req, I, E, EE, DE>::Finish(Poll::Ready(Err(FramedTransportError::Encoder(e)))),
        flushed_step::<Req, I, E, EE, DE>(Poll::Ready(Err(e)), WriteMode::Processing, rx_done, full, write_empty, rx_none, state, buf).action
            == TransportAction::<Req, I, E, EE, DE>::Finish(Poll::Ready(Err(FramedTransportError::Encoder(e)))),
        ({
            let mode = WriteMode::<E, EE, DE>::Processing;
            let s = received_step::<Req, I, E, EE, DE>(Poll::Ready(Some(FramedMessage::Message(msg))), mode, rx_done, full, write_empty, rx_none, state, buf);
            s.action == TransportAction::<Req, I, E, EE, DE>::Send(msg) && s.responses == buf && s.state == state
        }),
{
}

/// The cursor is where the action says the next report goes: each action
/// leaves the transport waiting for exactly the report that the action asks
/// for, so the caller that does what it is asked always meets the
/// requirement of the method it reports to.
pub open spec fn expects<Req, I, E, EE, DE>(action: TransportAction<Req, I, E, EE, DE>, cursor: Cursor<E, EE, DE>) -> bool {
    match action {
        TransportAction::PollServiceReady => cursor is ServiceReady,
        TransportAction::Call(_) => cursor is ServiceReady,
        TransportAction::PollFrame => cursor is Frame,
        TransportAction::Send(_) => cursor matches Cursor::Write { wait, .. } && (wait is SentBuffered
            || wait is SentReceived),
        TransportAction::PollReceiver => cursor matches Cursor::Write { wait, .. } && wait is Received,
        TransportAction::Flush => cursor is FlushStop || (cursor matches Cursor::Write { wait, .. } && wait is Flushed),
        TransportAction::Finish(_) => cursor is Idle,
    }
}

proof fn suspend_expects<Req, I, E, EE, DE>(
    mode: WriteMode<E, EE, DE>,
    rx_done: bool,
    progress: WriteProgress<I>,
    write_empty: bool,
    state: TransportState<E, EE, DE>,
    buf: Seq<Result<I, E>>,
)
    ensures
        ({
            let s = suspend_step::<Req, I, E, EE, DE>(mode, rx_done, progress, write_empty, state, buf);
            expects(s.action, s.cursor)
        }),
{
}

proof fn start_expects<Req, I, E, EE, DE>(
    state: TransportState<E, EE, DE>,
    full: bool,
    write_empty: bool,
    rx_none: bool,
    buf: Seq<Result<I, E>>,
)
    ensures
        ({
            let s = start_step::<Req, I, E, EE, DE>(state, full, write_empty, rx_none, buf);
            expects(s.action, s.cursor)
        }),
{
    match state {
        TransportState::Error(err) => {
            suspend_expects::<Req, I, E, EE, DE>(
                WriteMode::Error(err),
                rx_none,
                write_top_progress(full, buf, rx_none, write_empty),
                write_empty,
                write_top_state(full, buf, TransportState::Processing),
                write_top_buf(full, buf),
            );
        },
        _ => {},
    }
}

proof fn write_step_expects<Req, I, E, EE, DE>(
    mode: WriteMode<E, EE, DE>,
    rx_done: bool,
    progress: WriteProgress<I>,
    full: bool,
    write_empty: bool,
    rx_none: bool,
    state: TransportState<E, EE, DE>,
    buf: Seq<Result<I, E>>,
)
    ensures
        ({
            let s = write_step::<Req, I, E, EE, DE>(mode, rx_done, progress, full, write_empty, rx_none, state, buf);
            expects(s.action, s.cursor)
        }),
{
    start_expects::<Req, I, E, EE, DE>(state, full, write_empty, rx_none, buf);
    suspend_expects::<Req, I, E, EE, DE>(mode, rx_done, progress, write_empty, state, buf);
}

/// Every step of a poll leaves the cursor where its action says the next
/// report goes.
pub proof fn actions_match_cursor<Req, I, E, EE, DE>(
    state: TransportState<E, EE, DE>,
    mode: WriteMode<E, EE, DE>,
    rx_done: bool,
    wait: WriteWait,
    full: bool,
    write_empty: bool,
    rx_none: bool,
    buf: Seq<Result<I, E>>,
    ready: Poll<Result<(), E>>,
    frame: Poll<Option<Result<Req, DE>>>,
    encoded: Result<(), EE>,
    received: Poll<Option<FramedMessage<I>>>,
    flushed: Poll<Result<(), EE>>,
)
    ensures
        ({
            let s = start_step::<Req, I, E, EE, DE>(state, full, write_empty, rx_none, buf);
            expects(s.action, s.cursor)
        }),
        ({
            let s = service_ready_step::<Req, I, E, EE, DE>(ready, full, write_empty, rx_none, state, buf);
            expects(s.action, s.cursor)
        }),
        ({
            let s = frame_step::<Req, I, E, EE, DE>(frame, full, write_empty, rx_none, state, buf);
            expects(s.action, s.cursor)
        }),
        ({
            let s = encoded_step::<Req, I, E, EE, DE>(encoded, mode, rx_done, wait, full, write_empty, rx_none, state, buf);
            expects(s.action, s.cursor)
        }),
        ({
            let s = received_step::<Req, I, E, EE, DE>(received, mode, rx_done, full, write_empty, rx_none, state, buf);
            expects(s.action, s.cursor)
        }),
        ({
            let s = flushed_step::<Req, I, E, EE, DE>(flushed, mode, rx_done, full, write_empty, rx_none, state, buf);
            expects(s.action, s.cursor)
        }),
        ({
            let s = flush_stop_step::<Req, I, E, EE, DE>(flushed, state, buf);
            expects(s.action, s.cursor)
        }),
{
    start_expects::<Req, I, E, EE, DE>(state, full, write_empty, rx_none, buf);
    let tp = WriteMode::<E, EE, DE>::Processing;
    write_step_expects::<Req, I, E, EE, DE>(tp, rx_none, write_top_progress(full, buf, rx_none, write_empty), full, write_empty, rx_none, write_top_state(full, buf, state), write_top_buf(full, buf));
    write_step_expects::<Req, I, E, EE, DE>(mode, rx_done, write_top_progress(full, buf, rx_done, write_empty), full, write_empty, rx_none, write_top_state(full, buf, state), write_top_buf(full, buf));
    write_step_expects::<Req, I, E, EE, DE>(mode, rx_done, write_check_progress(full, buf, rx_done, write_empty), full, write_empty, rx_none, write_check_state(full, buf, rx_done, state), write_check_buf(full, buf, rx_done));
    write_step_expects::<Req, I, E, EE, DE>(mode, true, write_check_progress(full, buf, true, write_empty), full, write_empty, rx_none, write_check_state(full, buf, true, state), write_check_buf(full, buf, true));
    match ready {
        Poll::Ready(Err(e)) => start_expects::<Req, I, E, EE, DE>(TransportState::Error(FramedTransportError::Service(e)), full, write_empty, rx_none, buf),
        _ => {},
    }
    match frame {
        Poll::Ready(Some(Err(e))) => start_expects::<Req, I, E, EE, DE>(TransportState::FramedError(FramedTransportError::Decoder(e)), full, write_empty, rx_none, buf),
        Poll::Ready(None) => start_expects::<Req, I, E, EE, DE>(TransportState::Stopping, full, write_empty, rx_none, buf),
        _ => {},
    }
    match encoded {
        Err(e) => write_step_expects::<Req, I, E, EE, DE>(mode, rx_done, WriteProgress::Done(true), full, write_empty, rx_none, TransportState::FramedError(FramedTransportError::Encoder(e)), buf),
        _ => {},
    }
    match received {
        Poll::Ready(Some(FramedMessage::Close)) => write_step_expects::<Req, I, E, EE, DE>(mode, rx_done, WriteProgress::Done(true), full, write_empty, rx_none, TransportState::FlushAndStop, buf),
        _ => {},
    }
    match flushed {
        Poll::Pending => write_step_expects::<Req, I, E, EE, DE>(mode, rx_done, WriteProgress::Done(false), full, write_empty, rx_none, state, buf),
        Poll::Ready(Err(e)) => write_step_expects::<Req, I, E, EE, DE>(mode, rx_done, WriteProgress::Done(true), full, write_empty, rx_none, TransportState::FramedError(FramedTransportError::Encoder(e)), buf),
        _ => {},
    }
}

impl<S, T, U, R, E, EE, DE> FramedTransport<S, T, U, R, E, EE, DE> {
    pub closed spec fn service(&self) -> S {
        self.service
    }

    pub closed spec fn framed(&self) -> Framed<T, U> {
        self.framed
    }

    pub closed spec fn receiver(&self) -> Option<R> {
        self.rx
    }

    pub closed spec fn state(&self) -> TransportState<E, EE, DE> {
        self.state
    }

    pub closed spec fn cursor(&self) -> Cursor<E, EE, DE> {
        self.cursor
    }

    /// Everything but the cursor and the state is as in `other`.
    pub open spec fn same_parts(&self, other: &Self) -> bool {
        &&& self.service() == other.service()
        &&& self.framed() == other.framed()
        &&& self.receiver() == other.receiver()
    }

    /// Whether the write buffer counts as full.
    pub open spec fn full(&self) -> bool {
        self.framed().is_full_spec()
    }

    /// Whether no encoded bytes wait to be written.
    pub open spec fn write_empty(&self) -> bool {
        self.framed().write_bytes().len() == 0
    }

    /// `self` and `inner` are where `step` leaves them, having returned `action`.
    pub open spec fn took<Req, I>(
        &self,
        inner: FramedTransportInner<I, E>,
        action: TransportAction<Req, I, E, EE, DE>,
        step: TransportStep<Req, I, E, EE, DE>,
    ) -> bool {
        &&& action == step.action
        &&& self.state() == step.state
        &&& self.cursor() == step.cursor
        &&& inner.responses() == step.responses
    }
}

/// FramedTransport - is a future that reads frames from Framed object and pass
/// then to the service.
pub struct FramedTransport<S, T, U, R, E, EE, DE> {
    service: S,
    state: TransportState<E, EE, DE>,
    framed: Framed<T, U>,
    rx: Option<R>,
    cursor: Cursor<E, EE, DE>,
}

impl<S, T, U, R, E, EE, DE> FramedTransport<S, T, U, R, E, EE, DE> {
    pub fn new(framed: Framed<T, U>, service: S) -> (r: Self)
        ensures
            r.framed() == framed,
            r.service() == service,
            r.receiver() is None,
            r.state() is Processing,
            r.cursor() is Idle,
    {
        FramedTransport { framed, rx: None, service, state: TransportState::Processing, cursor: Cursor::Idle }
    }

    /// Sets the receiver of messages to write.
    pub fn set_receiver(self, rx: R) -> (r: Self)
        ensures
            r.receiver() == Some(rx),
            r.framed() == self.framed(),
            r.service() == self.service(),
            r.state() == self.state(),
            r.cursor() == self.cursor(),
    {
        let mut s = self;
        s.rx = Some(rx);
        s
    }

    /// Get reference to a service wrapped by `FramedTransport` instance.
    pub fn get_ref(&self) -> (r: &S)
        ensures
            *r == self.service(),
    {
        &self.service
    }

    /// Get mutable reference to a service wrapped by `FramedTransport` instance.
    pub fn get_mut(&mut self) -> (r: &mut S)
        ensures
            *r == old(self).service(),
            final(self).service() == *final(r),
            final(self).framed() == old(self).framed(),
            final(self).receiver() == old(self).receiver(),
            final(self).state() == old(self).state(),
            final(self).cursor() == old(self).cursor(),
    {
        &mut self.service
    }

    /// Get reference to a framed instance wrapped by `FramedTransport` instance.
    pub fn get_framed(&self) -> (r: &Framed<T, U>)
        ensures
            *r == self.framed(),
    {
        &self.framed
    }

    /// Get mutable reference to a framed instance wrapped by `FramedTransport`
    /// instance.
    pub fn get_framed_mut(&mut self) -> (r: &mut Framed<T, U>)
        ensures
            *r == old(self).framed(),
            final(self).framed() == *final(r),
            final(self).service() == old(self).service(),
            final(self).receiver() == old(self).receiver(),
            final(self).state() == old(self).state(),
            final(self).cursor() == old(self).cursor(),
    {
        &mut self.framed
    }

    /// The receiver, for the caller to poll it.
    pub fn receiver_mut(&mut self) -> (r: Option<&mut R>)
        ensures
            old(self).receiver() is None ==> r is None,
            old(self).receiver() is Some ==> r is Some && *r->0 == old(self).receiver()->0
                && final(self).receiver() == Some(*final(r->0)),
            final(self).service() == old(self).service(),
            final(self).framed() == old(self).framed(),
            final(self).state() == old(self).state(),
            final(self).cursor() == old(self).cursor(),
    {
        self.rx.as_mut()
    }

    /// Starts a poll of the transport.
    pub fn poll_start<Req, I>(&mut self, inner: &mut FramedTransportInner<I, E>) -> (r: TransportAction<
        Req,
        I,
        E,
        EE,
        DE,
    >)
        requires
            old(self).cursor() is Idle,
        ensures
            final(self).took(
                *final(inner),
                r,
                start_step(
                    old(self).state(),
                    old(self).full(),
                    old(self).write_empty(),
                    old(self).receiver() is None,
                    old(inner).responses(),
                ),
            ),
            final(self).same_parts(&*old(self)),
            expects(r, final(self).cursor()),
            taken_from_front(final(inner).responses(), old(inner).responses()),
            old(self).state() matches TransportState::FramedError(err) ==> r == TransportAction::<
                Req,
                I,
                E,
                EE,
                DE,
            >::Finish(Poll::Ready(Err(err))),
            old(self).write_empty() ==> (old(self).state() matches TransportState::Error(err) ==> r
                == TransportAction::<Req, I, E, EE, DE>::Finish(Poll::Ready(Err(err)))),
    {
        let ghost (st0, full0, we0, rxn0, buf0) = (
            self.state(),
            self.full(),
            self.write_empty(),
            self.receiver() is None,
            inner.responses(),
        );
        let mut st = TransportState::Processing;
        std::mem::swap(&mut st, &mut self.state);
        let r = match st {
            TransportState::Processing => {
                self.cursor = Cursor::ServiceReady;
                TransportAction::PollServiceReady
            },
            TransportState::Error(err) => {
                if self.framed.is_write_buf_empty() {
                    self.cursor = Cursor::Idle;
                    TransportAction::Finish(Poll::Ready(Err(err)))
                } else {
                    let rx_done = self.rx.is_none();
                    let p = self.write_top(inner, rx_done);
                    self.suspend(WriteMode::Error(err), rx_done, p)
                }
            },
            TransportState::FlushAndStop => {
                if !self.framed.is_write_buf_empty() {
                    self.cursor = Cursor::FlushStop;
                    TransportAction::Flush
                } else {
                    self.cursor = Cursor::Idle;
                    TransportAction::Finish(Poll::Ready(Ok(())))
                }
            },
            TransportState::FramedError(err) => {
                self.cursor = Cursor::Idle;
                TransportAction::Finish(Poll::Ready(Err(err)))
            },
            TransportState::Stopping => {
                self.cursor = Cursor::Idle;
                TransportAction::Finish(Poll::Ready(Ok(())))
            },
        };
        proof {
            actions_match_cursor::<Req, I, E, EE, DE>(st0, arbitrary(), arbitrary(), arbitrary(), full0, we0, rxn0, buf0, arbitrary(), arbitrary(), arbitrary(), arbitrary(), arbitrary());
            responses_leave_in_order::<Req, I, E, EE, DE>(st0, arbitrary(), arbitrary(), arbitrary(), full0, we0, rxn0, buf0, arbitrary(), arbitrary(), arbitrary(), arbitrary(), arbitrary());
            transport_endings::<Req, I, E, EE, DE>(full0, we0, rxn0, st0, buf0, arbitrary(), match st0 {
                TransportState::FramedError(err) => err,
                TransportState::Error(err) => err,
                _ => arbitrary(),
            }, arbitrary());
        }
        r
    }

    /// Makes the write loop wait for the work `progress` asks for, or ends it.
    fn suspend<Req, I>(&mut self, mode: WriteMode<E, EE, DE>, rx_done: bool, progress: WriteProgress<I>) -> (r:
        TransportAction<Req, I, E, EE, DE>)
        ensures
            ({
                let step = suspend_step::<Req, I, E, EE, DE>(
                    mode,
                    rx_done,
                    progress,
                    old(self).write_empty(),
                    old(self).state(),
                    Seq::empty(),
                );
                &&& r == step.action
                &&& final(self).state() == step.state
                &&& final(self).cursor() == step.cursor
            }),
            final(self).same_parts(&*old(self)),
    {
        match progress {
            WriteProgress::Send(msg) => {
                self.cursor = Cursor::Write { mode, rx_done, wait: WriteWait::SentBuffered };
                TransportAction::Send(msg)
            },
            WriteProgress::PollReceiver => {
                self.cursor = Cursor::Write { mode, rx_done, wait: WriteWait::Received };
                TransportAction::PollReceiver
            },
            WriteProgress::Flush => {
                self.cursor = Cursor::Write { mode, rx_done, wait: WriteWait::Flushed };
                TransportAction::Flush
            },
            WriteProgress::Done(changed) => {
                self.cursor = Cursor::Idle;
                match mode {
                    WriteMode::Error(err) => {
                        if changed || self.framed.is_write_buf_empty() {
                            TransportAction::Finish(Poll::Ready(Err(err)))
                        } else {
                            self.state = TransportState::Error(err);
                            TransportAction::Finish(Poll::Pending)
                        }
                    },
                    WriteMode::Processing => TransportAction::Finish(Poll::Pending),
                }
            },
        }
    }

    /// Goes on from a write loop that reached `progress`: an ordinary poll whose
    /// write loop changed the state polls again.
    fn proceed<Req, I>(
        &mut self,
        inner: &mut FramedTransportInner<I, E>,
        mode: WriteMode<E, EE, DE>,
        rx_done: bool,
        progress: WriteProgress<I>,
    ) -> (r: TransportAction<Req, I, E, EE, DE>)
        ensures
            final(self).took(
                *final(inner),
                r,
                write_step(
                    mode,
                    rx_done,
                    progress,
                    old(self).full(),
                    old(self).write_empty(),
                    old(self).receiver() is None,
                    old(self).state(),
                    old(inner).responses(),
                ),
            ),
            final(self).same_parts(&*old(self)),
    {
        let restart = match (&mode, &progress) {
            (WriteMode::Processing, WriteProgress::Done(true)) => true,
            _ => false,
        };
        if restart {
            self.cursor = Cursor::Idle;
            self.poll_start(inner)
        } else {
            self.suspend(mode, rx_done, progress)
        }
    }

    /// The write loop's check: leave the inner loop when the receiver is done
    /// and no response waits, else go round again.
    fn write_check<I>(&mut self, inner: &mut FramedTransportInner<I, E>, rx_done: bool) -> (r: WriteProgress<I>)
        ensures
            r == write_check_progress(old(self).full(), old(inner).responses(), rx_done, old(self).write_empty()),
            final(self).state() == write_check_state(
                old(self).full(),
                old(inner).responses(),
                rx_done,
                old(self).state(),
            ),
            final(inner).responses() == write_check_buf(old(self).full(), old(inner).responses(), rx_done),
            final(self).same_parts(&*old(self)),
            final(self).cursor() == old(self).cursor(),
    {
        if rx_done && inner.is_empty() {
            self.flush_check()
        } else {
            self.write_top(inner, rx_done)
        }
    }

    /// Takes the cursor of a running write loop.
    fn take_write_cursor(&mut self) -> (r: (WriteMode<E, EE, DE>, bool, WriteWait))
        requires
            old(self).cursor() is Write,
        ensures
            old(self).cursor() == (Cursor::Write { mode: r.0, rx_done: r.1, wait: r.2 }),
            final(self).cursor() is Idle,
            final(self).state() == old(self).state(),
            final(self).same_parts(&*old(self)),
    {
        let mut c = Cursor::Idle;
        std::mem::swap(&mut c, &mut self.cursor);
        match c {
            Cursor::Write { mode, rx_done, wait } => (mode, rx_done, wait),
            _ => vstd::pervasive::unreached(),
        }
    }

    /// Goes on after the service reported its readiness.
    pub fn on_service_ready<Req, I>(&mut self, inner: &mut FramedTransportInner<I, E>, ev: Poll<Result<(), E>>) -> (r:
        TransportAction<Req, I, E, EE, DE>)
        requires
            old(self).cursor() is ServiceReady,
        ensures
            final(self).took(
                *final(inner),
                r,
                service_ready_step(
                    ev,
                    old(self).full(),
                    old(self).write_empty(),
                    old(self).receiver() is None,
                    old(self).state(),
                    old(inner).responses(),
                ),
            ),
            final(self).same_parts(&*old(self)),
            expects(r, final(self).cursor()),
            taken_from_front(final(inner).responses(), old(inner).responses()),
    {
        let ghost (st0, full0, we0, rxn0, buf0) = (
            self.state(),
            self.full(),
            self.write_empty(),
            self.receiver() is None,
            inner.responses(),
        );
        let ghost ev0 = ev;
        let r = match ev {
            Poll::Ready(Ok(())) => {
                self.cursor = Cursor::Frame;
                TransportAction::PollFrame
            },
            Poll::Ready(Err(e)) => {
                self.state = TransportState::Error(FramedTransportError::Service(e));
                self.cursor = Cursor::Idle;
                self.poll_start(inner)
            },
            Poll::Pending => {
                let rx_done = self.rx.is_none();
                let p = self.write_top(inner, rx_done);
                self.proceed(inner, WriteMode::Processing, rx_done, p)
            },
        };
        proof {
            actions_match_cursor::<Req, I, E, EE, DE>(st0, arbitrary(), arbitrary(), arbitrary(), full0, we0, rxn0, buf0, ev0, arbitrary(), arbitrary(), arbitrary(), arbitrary());
            responses_leave_in_order::<Req, I, E, EE, DE>(st0, arbitrary(), arbitrary(), arbitrary(), full0, we0, rxn0, buf0, ev0, arbitrary(), arbitrary(), arbitrary(), arbitrary());
        }
        r
    }

    /// Goes on after the framed object reported the next decoded frame.
    pub fn on_frame<Req, I>(&mut self, inner: &mut FramedTransportInner<I, E>, ev: Poll<Option<Result<Req, DE>>>) -> (r:
        TransportAction<Req, I, E, EE, DE>)
        requires
            old(self).cursor() is Frame,
        ensures
            final(self).took(
                *final(inner),
                r,
                frame_step(
                    ev,
                    old(self).full(),
                    old(self).write_empty(),
                    old(self).receiver() is None,
                    old(self).state(),
                    old(inner).responses(),
                ),
            ),
            final(self).same_parts(&*old(self)),
            expects(r, final(self).cursor()),
            taken_from_front(final(inner).responses(), old(inner).responses()),
            ev matches Poll::Ready(Some(Err(e))) ==> r == TransportAction::<Req, I, E, EE, DE>::Finish(
                Poll::Ready(Err(FramedTransportError::Decoder(e))),
            ),
            ev == Poll::<Option<Result<Req, DE>>>::Ready(None) ==> r == TransportAction::<
                Req,
                I,
                E,
                EE,
                DE,
            >::Finish(Poll::Ready(Ok(()))),
    {
        let ghost (st0, full0, we0, rxn0, buf0) = (
            self.state(),
            self.full(),
            self.write_empty(),
            self.receiver() is None,
            inner.responses(),
        );
        let ghost ev0 = ev;
        let r = match ev {
            Poll::Ready(Some(Ok(req))) => {
                self.cursor = Cursor::ServiceReady;
                TransportAction::Call(req)
            },
            Poll::Ready(Some(Err(e))) => {
                self.state = TransportState::FramedError(FramedTransportError::Decoder(e));
                self.cursor = Cursor::Idle;
                self.poll_start(inner)
            },
            Poll::Ready(None) => {
                self.state = TransportState::Stopping;
                self.cursor = Cursor::Idle;
                self.poll_start(inner)
            },
            Poll::Pending => {
                let rx_done = self.rx.is_none();
                let p = self.write_top(inner, rx_done);
                self.proceed(inner, WriteMode::Processing, rx_done, p)
            },
        };
        proof {
            actions_match_cursor::<Req, I, E, EE, DE>(st0, arbitrary(), arbitrary(), arbitrary(), full0, we0, rxn0, buf0, arbitrary(), ev0, arbitrary(), arbitrary(), arbitrary());
            responses_leave_in_order::<Req, I, E, EE, DE>(st0, arbitrary(), arbitrary(), arbitrary(), full0, we0, rxn0, buf0, arbitrary(), ev0, arbitrary(), arbitrary(), arbitrary());
            transport_endings::<Req, I, E, EE, DE>(full0, we0, rxn0, st0, buf0, match ev0 {
                Poll::Ready(Some(Err(e))) => e,
                _ => arbitrary(),
            }, arbitrary(), arbitrary());
        }
        r
    }

    /// Goes on after an item was encoded into the write buffer, or failed to be.
    pub fn on_encoded<Req, I>(&mut self, inner: &mut FramedTransportInner<I, E>, res: Result<(), EE>) -> (r:
        TransportAction<Req, I, E, EE, DE>)
        requires
            old(self).cursor() matches Cursor::Write { wait, .. } && (wait is SentBuffered || wait is SentReceived),
        ensures
            ({
                let (mode, rx_done, wait) = match old(self).cursor() {
                    Cursor::Write { mode, rx_done, wait } => (mode, rx_done, wait),
                    _ => arbitrary(),
                };
                final(self).took(
                    *final(inner),
                    r,
                    encoded_step(
                        res,
                        mode,
                        rx_done,
                        wait,
                        old(self).full(),
                        old(self).write_empty(),
                        old(self).receiver() is None,
                        old(self).state(),
                        old(inner).responses(),
                    ),
                )
            }),
            final(self).same_parts(&*old(self)),
            expects(r, final(self).cursor()),
            taken_from_front(final(inner).responses(), old(inner).responses()),
    {
        let ghost (st0, full0, we0, rxn0, buf0, c0) = (
            self.state(),
            self.full(),
            self.write_empty(),
            self.receiver() is None,
            inner.responses(),
            self.cursor(),
        );
        let ghost ev0 = res;
        let ghost (mode0, rx_done0, wait0) = match c0 {
            Cursor::Write { mode, rx_done, wait } => (mode, rx_done, wait),
            _ => arbitrary(),
        };
        let (mode, rx_done, wait) = self.take_write_cursor();
        let r = match res {
            Err(e) => {
                self.state = TransportState::FramedError(FramedTransportError::Encoder(e));
                self.proceed(inner, mode, rx_done, WriteProgress::Done(true))
            },
            Ok(()) => {
                let after_buffered = match wait {
                    WriteWait::SentBuffered => true,
                    _ => false,
                };
                if after_buffered && !rx_done {
                    self.cursor = Cursor::Write { mode, rx_done, wait: WriteWait::Received };
                    TransportAction::PollReceiver
                } else {
                    let p = self.write_check(inner, rx_done);
                    self.proceed(inner, mode, rx_done, p)
                }
            },
        };
        proof {
            actions_match_cursor::<Req, I, E, EE, DE>(st0, mode0, rx_done0, wait0, full0, we0, rxn0, buf0, arbitrary(), arbitrary(), ev0, arbitrary(), arbitrary());
            responses_leave_in_order::<Req, I, E, EE, DE>(st0, mode0, rx_done0, wait0, full0, we0, rxn0, buf0, arbitrary(), arbitrary(), ev0, arbitrary(), arbitrary());
        }
        r
    }

    /// Goes on after the receiver was polled.
    pub fn on_received<Req, I>(&mut self, inner: &mut FramedTransportInner<I, E>, ev: Poll<Option<FramedMessage<I>>>) -> (r:
        TransportAction<Req, I, E, EE, DE>)
        requires
            old(self).cursor() matches Cursor::Write { wait, .. } && wait is Received,
        ensures
            ({
                let (mode, rx_done) = match old(self).cursor() {
                    Cursor::Write { mode, rx_done, .. } => (mode, rx_done),
                    _ => arbitrary(),
                };
                final(self).took(
                    *final(inner),
                    r,
                    received_step(
                        ev,
                        mode,
                        rx_done,
                        old(self).full(),
                        old(self).write_empty(),
                        final(self).receiver() is None,
                        old(self).state(),
                        old(inner).responses(),
                    ),
                )
            }),
            final(self).service() == old(self).service(),
            final(self).framed() == old(self).framed(),
            ev == Poll::<Option<FramedMessage<I>>>::Ready(None) ==> final(self).receiver() is None,
            ev != Poll::<Option<FramedMessage<I>>>::Ready(None) ==> final(self).receiver() == old(self).receiver(),
            expects(r, final(self).cursor()),
            taken_from_front(final(inner).responses(), old(inner).responses()),
            ev == Poll::Ready(Some(FramedMessage::<I>::Close)) && (old(self).cursor() matches Cursor::Write {
                mode: WriteMode::Processing,
                ..
            }) ==> if old(self).write_empty() {
                r == TransportAction::<Req, I, E, EE, DE>::Finish(Poll::Ready(Ok(())))
            } else {
                r == TransportAction::<Req, I, E, EE, DE>::Flush && final(self).cursor() is FlushStop
            },
    {
        let ghost (st0, full0, we0, rxn0, buf0, c0) = (
            self.state(),
            self.full(),
            self.write_empty(),
            self.receiver() is None,
            inner.responses(),
            self.cursor(),
        );
        let ghost ev0 = ev;
        let ghost (mode0, rx_done0, wait0) = match c0 {
            Cursor::Write { mode, rx_done, wait } => (mode, rx_done, wait),
            _ => arbitrary(),
        };
        let (mode, rx_done, _wait) = self.take_write_cursor();
        let r = match ev {
            Poll::Ready(Some(FramedMessage::Message(msg))) => {
                self.cursor = Cursor::Write { mode, rx_done, wait: WriteWait::SentReceived };
                TransportAction::Send(msg)
            },
            Poll::Ready(Some(FramedMessage::Close)) => {
                self.state = TransportState::FlushAndStop;
                self.proceed(inner, mode, rx_done, WriteProgress::Done(true))
            },
            Poll::Ready(None) => {
                self.rx = None;
                let p = self.write_check(inner, true);
                self.proceed(inner, mode, true, p)
            },
            Poll::Pending => {
                let p = self.write_check(inner, true);
                self.proceed(inner, mode, true, p)
            },
        };
        proof {
            let rxn1 = self.receiver() is None;
            actions_match_cursor::<Req, I, E, EE, DE>(st0, mode0, rx_done0, wait0, full0, we0, rxn1, buf0, arbitrary(), arbitrary(), arbitrary(), ev0, arbitrary());
            responses_leave_in_order::<Req, I, E, EE, DE>(st0, mode0, rx_done0, wait0, full0, we0, rxn1, buf0, arbitrary(), arbitrary(), arbitrary(), ev0, arbitrary());
            transport_endings::<Req, I, E, EE, DE>(full0, we0, rxn1, st0, buf0, arbitrary(), arbitrary(), rx_done0);
        }
        r
    }

    /// Goes on after the write buffer was flushed, or failed to be.
    pub fn on_flushed<Req, I>(&mut self, inner: &mut FramedTransportInner<I, E>, ev: Poll<Result<(), EE>>) -> (r:
        TransportAction<Req, I, E, EE, DE>)
        requires
            old(self).cursor() is FlushStop || (old(self).cursor() matches Cursor::Write { wait, .. } && wait is Flushed),
        ensures
            old(self).cursor() is FlushStop ==> final(self).took(
                *final(inner),
                r,
                flush_stop_step(ev, old(self).state(), old(inner).responses()),
            ),
            old(self).cursor() matches Cursor::Write { mode, rx_done, .. } ==> final(self).took(
                *final(inner),
                r,
                flushed_step(
                    ev,
                    mode,
                    rx_done,
                    old(self).full(),
                    old(self).write_empty(),
                    old(self).receiver() is None,
                    old(self).state(),
                    old(inner).responses(),
                ),
            ),
            final(self).same_parts(&*old(self)),
            expects(r, final(self).cursor()),
            taken_from_front(final(inner).responses(), old(inner).responses()),
            old(self).cursor() is FlushStop && ev is Ready ==> r == TransportAction::<
                Req,
                I,
                E,
                EE,
                DE,
            >::Finish(Poll::Ready(Ok(()))),
    {
        let ghost (st0, full0, we0, rxn0, buf0, c0) = (
            self.state(),
            self.full(),
            self.write_empty(),
            self.receiver() is None,
            inner.responses(),
            self.cursor(),
        );
        let ghost ev0 = ev;
        let ghost (mode0, rx_done0, wait0) = match c0 {
            Cursor::Write { mode, rx_done, wait } => (mode, rx_done, wait),
            _ => arbitrary(),
        };
        let stopping = match &self.cursor {
            Cursor::FlushStop => true,
            _ => false,
        };
        let r = if stopping {
            self.cursor = Cursor::Idle;
            match ev {
                Poll::Pending => TransportAction::Finish(Poll::Pending),
                Poll::Ready(_) => TransportAction::Finish(Poll::Ready(Ok(()))),
            }
        } else {
            let (mode, rx_done, _wait) = self.take_write_cursor();
            match ev {
                Poll::Pending => self.proceed(inner, mode, rx_done, WriteProgress::Done(false)),
                Poll::Ready(Err(e)) => {
                    self.state = TransportState::FramedError(FramedTransportError::Encoder(e));
                    self.proceed(inner, mode, rx_done, WriteProgress::Done(true))
                },
                Poll::Ready(Ok(())) => {
                    let p = self.write_top(inner, rx_done);
                    self.proceed(inner, mode, rx_done, p)
                },
            }
        };
        proof {
            actions_match_cursor::<Req, I, E, EE, DE>(st0, mode0, rx_done0, wait0, full0, we0, rxn0, buf0, arbitrary(), arbitrary(), arbitrary(), arbitrary(), ev0);
            responses_leave_in_order::<Req, I, E, EE, DE>(st0, mode0, rx_done0, wait0, full0, we0, rxn0, buf0, arbitrary(), arbitrary(), arbitrary(), arbitrary(), ev0);
            top_buf_from_front(full0, buf0);
            transport_endings::<Req, I, E, EE, DE>(full0, we0, rxn0, st0, buf0, arbitrary(), arbitrary(), rx_done0);
        }
        r
    }

    /// The write loop from its top: send the oldest waiting response while the
    /// write buffer is not full, else poll the receiver, else flush.
    fn write_top<I>(&mut self, inner: &mut FramedTransportInner<I, E>, rx_done: bool) -> (r: WriteProgress<I>)
        ensures
            r == write_top_progress(
                old(self).framed().is_full_spec(),
                old(inner).responses(),
                rx_done,
                old(self).framed().write_bytes().len() == 0,
            ),
            final(self).same_parts(&*old(self)),
            final(self).cursor() == old(self).cursor(),
            !old(self).framed().is_full_spec() && old(inner).responses().len() > 0 ==> {
                &&& final(inner).responses() == old(inner).responses().drop_first()
                &&& match old(inner).responses()[0] {
                    Ok(_) => final(self).state() == old(self).state(),
                    Err(e) => final(self).state() == TransportState::<E, EE, DE>::Error(
                        FramedTransportError::Service(e),
                    ),
                }
            },
            !(!old(self).framed().is_full_spec() && old(inner).responses().len() > 0) ==> {
                &&& final(inner).responses() == old(inner).responses()
                &&& final(self).state() == old(self).state()
            },
    {
        if !self.framed.is_write_buf_full() {
            if !inner.is_empty() {
                match inner.buf.pop_front() {
                    Some(Ok(msg)) => {
                        return WriteProgress::Send(msg);
                    },
                    Some(Err(err)) => {
                        self.state = TransportState::Error(FramedTransportError::Service(err));
                        return WriteProgress::Done(true);
                    },
                    None => {
                        return WriteProgress::Done(false);
                    },
                }
            }
            if !rx_done {
                return WriteProgress::PollReceiver;
            }
        }
        self.flush_check()
    }

    fn flush_check<I>(&self) -> (r: WriteProgress<I>)
        ensures
            r == flush_check_progress::<I>(self.framed().write_bytes().len() == 0),
    {
        if !self.framed.is_write_buf_empty() {
            WriteProgress::Flush
        } else {
            WriteProgress::Done(false)
        }
    }
}

} // verus!
