use vstd::prelude::*;

use crate::errors::{HandshakeError, SessionError};
use crate::messages::{HandshakeAck, HandshakeStatus};

verus! {

/// One event of the stream of frames that the broker sends, as the reading
/// loop sees it.
pub enum Incoming<T> {
    /// A data frame (binary or text), with the value it decoded to, if any.
    Payload(Option<T>),
    /// A ping, with its payload.
    Ping(Vec<u8>),
    /// A pong.
    Pong,
    /// A close frame.
    Close,
    /// A raw frame.
    RawFrame,
    /// The transport reported an error.
    Failed,
    /// The stream of frames ended.
    Ended,
}

/// A control frame that the client sends to the broker.
#[derive(Debug, PartialEq, Eq)]
pub enum ControlFrame {
    /// A pong, carrying these bytes.
    Pong(Vec<u8>),
    /// A close frame, which ends the connection.
    Close,
}

/// What the reading loop does after an event.
pub enum ReadStep<T, E> {
    /// Send this frame, then read on.
    Send(ControlFrame),
    /// Read on.
    Continue,
    /// Stop reading with this result.
    Finish(Result<T, E>),
}

/// Whether the loop reads on after this step.
pub open spec fn reads_on<T, E>(step: ReadStep<T, E>) -> bool {
    !(step is Finish)
}

/// How the loop that awaits the broker's acknowledgement of the handshake
/// handles one event.
pub open spec fn ack_step_spec(ev: Incoming<HandshakeAck>) -> ReadStep<(), HandshakeError> {
    match ev {
        Incoming::Payload(Some(ack)) => if ack.status == HandshakeStatus::Success {
            ReadStep::Finish(Ok(()))
        } else {
            ReadStep::Finish(Err(HandshakeError::BadHandshake))
        },
        Incoming::Payload(None) => ReadStep::Finish(Err(HandshakeError::BadHandshake)),
        Incoming::Ping(payload) => ReadStep::Send(ControlFrame::Pong(payload)),
        Incoming::Pong => ReadStep::Continue,
        _ => ReadStep::Finish(Err(HandshakeError::ConnectionError)),
    }
}

/// How the loop that reads a message within a session handles one event.
pub open spec fn message_step_spec<T>(ev: Incoming<T>) -> ReadStep<T, SessionError> {
    match ev {
        Incoming::Payload(Some(v)) => ReadStep::Finish(Ok(v)),
        Incoming::Payload(None) => ReadStep::Finish(Err(SessionError::NoAvailableTicker)),
        Incoming::Ping(payload) => ReadStep::Send(ControlFrame::Pong(payload)),
        Incoming::Pong => ReadStep::Continue,
        Incoming::Close => ReadStep::Finish(Err(SessionError::ConnectionClosed)),
        Incoming::RawFrame => ReadStep::Finish(Err(SessionError::InvalidMessage)),
        Incoming::Failed => ReadStep::Continue,
        Incoming::Ended => ReadStep::Finish(Err(SessionError::ConnectionClosed)),
    }
}

/// Handles one event while awaiting the broker's acknowledgement of the
/// handshake: a successful acknowledgement ends the handshake, any other data
/// is a bad handshake, a ping is answered with its own payload, a pong is
/// skipped, and anything else is a failure of the connection.
pub fn ack_step(ev: Incoming<HandshakeAck>) -> (step: ReadStep<(), HandshakeError>)
    ensures
        step == ack_step_spec(ev),
        reads_on(step) <==> (ev is Ping || ev is Pong),
{
    match ev {
        Incoming::Payload(Some(ack)) => {
            if matches!(ack.status, HandshakeStatus::Success) {
                ReadStep::Finish(Ok(()))
            } else {
                ReadStep::Finish(Err(HandshakeError::BadHandshake))
            }
        },
        Incoming::Payload(None) => ReadStep::Finish(Err(HandshakeError::BadHandshake)),
        Incoming::Ping(payload) => ReadStep::Send(ControlFrame::Pong(payload)),
        Incoming::Pong => ReadStep::Continue,
        _ => ReadStep::Finish(Err(HandshakeError::ConnectionError)),
    }
}

/// Handles one event while reading a message within a session: decoded data
/// is the message, data that does not decode means no ticker is available, a
/// ping is answered with its own payload, a pong or a transport error is
/// skipped, a close frame or the end of the stream means the session was
/// closed, and a raw frame is an invalid message.
pub fn message_step<T>(ev: Incoming<T>) -> (step: ReadStep<T, SessionError>)
    ensures
        step == message_step_spec(ev),
        reads_on(step) <==> (ev is Ping || ev is Pong || ev is Failed),
{
    match ev {
        Incoming::Payload(Some(v)) => ReadStep::Finish(Ok(v)),
        Incoming::Payload(None) => ReadStep::Finish(Err(SessionError::NoAvailableTicker)),
        Incoming::Ping(payload) => ReadStep::Send(ControlFrame::Pong(payload)),
        Incoming::Pong => ReadStep::Continue,
        Incoming::Close => ReadStep::Finish(Err(SessionError::ConnectionClosed)),
        Incoming::RawFrame => ReadStep::Finish(Err(SessionError::InvalidMessage)),
        Incoming::Failed => ReadStep::Continue,
        Incoming::Ended => ReadStep::Finish(Err(SessionError::ConnectionClosed)),
    }
}

/// Both reading loops answer a ping with a pong that carries the ping's own
/// payload and then read on, and both skip a pong.
pub proof fn lemma_pings_are_echoed<T>(payload: Vec<u8>)
    ensures
        ack_step_spec(Incoming::Ping(payload)) == ReadStep::<(), HandshakeError>::Send(
            ControlFrame::Pong(payload),
        ),
        message_step_spec(Incoming::<T>::Ping(payload)) == ReadStep::<T, SessionError>::Send(
            ControlFrame::Pong(payload),
        ),
        ack_step_spec(Incoming::Pong) == ReadStep::<(), HandshakeError>::Continue,
        message_step_spec(Incoming::<T>::Pong) == ReadStep::<T, SessionError>::Continue,
{
}

/// Whatever stops the loop that reads a message within a session also stops
/// the loop that awaits the handshake's acknowledgement: the session loop
/// only reads on past more events (transport errors).
pub proof fn lemma_session_reads_on_longer(ev: Incoming<HandshakeAck>)
    ensures
        reads_on(ack_step_spec(ev)) ==> reads_on(message_step_spec(ev)),
        !reads_on(message_step_spec(ev)) ==> !reads_on(ack_step_spec(ev)),
{
}

/// The frames sent, and the result reached, when a reading loop that
/// handles each event with `step` reads the events `evs` in turn; no result
/// when the events run out first.
pub open spec fn run<T, U, E>(step: spec_fn(Incoming<T>) -> ReadStep<U, E>, evs: Seq<Incoming<T>>) -> (
    Seq<ControlFrame>,
    Option<Result<U, E>>,
)
    decreases evs.len(),
{
    if evs.len() == 0 {
        (seq![], None)
    } else {
        let rest = run(step, evs.drop_first());
        match step(evs[0]) {
            ReadStep::Send(f) => (seq![f] + rest.0, rest.1),
            ReadStep::Continue => rest,
            ReadStep::Finish(r) => (seq![], Some(r)),
        }
    }
}

/// The pongs that answer the pings among `evs`, in order.
pub open spec fn echoes<T>(evs: Seq<Incoming<T>>) -> Seq<ControlFrame>
    decreases evs.len(),
{
    if evs.len() == 0 {
        seq![]
    } else {
        let rest = echoes(evs.drop_first());
        match evs[0] {
            Incoming::Ping(payload) => seq![ControlFrame::Pong(payload)] + rest,
            _ => rest,
        }
    }
}

/// A ping or a pong.
pub open spec fn is_control<T>(ev: Incoming<T>) -> bool {
    ev is Ping || ev is Pong
}

proof fn lemma_run_decided_by_first_decisive<T, U, E>(
    step: spec_fn(Incoming<T>) -> ReadStep<U, E>,
    pre: Seq<Incoming<T>>,
    decisive: Incoming<T>,
    tail: Seq<Incoming<T>>,
)
    requires
        forall|i: int|
            0 <= i < pre.len() ==> (#[trigger] pre[i] matches Incoming::Ping(p) ==> step(pre[i])
                == ReadStep::<U, E>::Send(ControlFrame::Pong(p))),
        forall|i: int|
            0 <= i < pre.len() && !(#[trigger] pre[i] is Ping) ==> step(pre[i])
                == ReadStep::<U, E>::Continue,
        step(decisive) is Finish,
    ensures
        run(step, pre + seq![decisive] + tail) == (echoes(pre), Some(step(decisive)->Finish_0)),
    decreases pre.len(),
{
    let evs = pre + seq![decisive] + tail;
    if pre.len() == 0 {
        assert(evs[0] == decisive);
    } else {
        let rest = pre.drop_first();
        assert(evs.drop_first() =~= rest + seq![decisive] + tail);
        assert(evs[0] == pre[0]);
        assert forall|i: int| 0 <= i < rest.len() implies (#[trigger] rest[i] matches Incoming::Ping(
            p,
        ) ==> step(rest[i]) == ReadStep::<U, E>::Send(ControlFrame::Pong(p))) by {
            assert(rest[i] == pre[i + 1]);
        }
        assert forall|i: int| 0 <= i < rest.len() && !(#[trigger] rest[i] is Ping) implies step(
            rest[i],
        ) == ReadStep::<U, E>::Continue by {
            assert(rest[i] == pre[i + 1]);
        }
        lemma_run_decided_by_first_decisive(step, rest, decisive, tail);
        assert(pre[0] is Ping ==> step(pre[0]) == ReadStep::<U, E>::Send(
            ControlFrame::Pong(pre[0]->Ping_0),
        ));
    }
}

/// Whatever frames follow, the loop that awaits the handshake's
/// acknowledgement answers the pings before the first event that is neither
/// a ping nor a pong with their pongs, in order, and ends with the result
/// that this event decides; nothing after it is read.
pub proof fn lemma_ack_read_decided_by_first_decisive(
    pre: Seq<Incoming<HandshakeAck>>,
    decisive: Incoming<HandshakeAck>,
    tail: Seq<Incoming<HandshakeAck>>,
)
    requires
        forall|i: int| 0 <= i < pre.len() ==> is_control(#[trigger] pre[i]),
        !is_control(decisive),
    ensures
        run(|ev| ack_step_spec(ev), pre + seq![decisive] + tail) == (
            echoes(pre),
            Some(ack_step_spec(decisive)->Finish_0),
        ),
{
    lemma_run_decided_by_first_decisive(|ev| ack_step_spec(ev), pre, decisive, tail);
}

/// The same holds of the loop that reads a message within a session, where
/// transport errors are skipped as well: the pings among the pings, pongs
/// and transport errors before the first other event are answered in
/// order, and that event decides the result.
pub proof fn lemma_message_read_decided_by_first_decisive<T>(
    pre: Seq<Incoming<T>>,
    decisive: Incoming<T>,
    tail: Seq<Incoming<T>>,
)
    requires
        forall|i: int| 0 <= i < pre.len() ==> is_control(#[trigger] pre[i]) || pre[i] is Failed,
        !is_control(decisive),
        !(decisive is Failed),
    ensures
        run(|ev| message_step_spec(ev), pre + seq![decisive] + tail) == (
            echoes(pre),
            Some(message_step_spec(decisive)->Finish_0),
        ),
{
    lemma_run_decided_by_first_decisive(|ev| message_step_spec(ev), pre, decisive, tail);
}

/// How each frame ends the loop that awaits the handshake's
/// acknowledgement: only a successful acknowledgement succeeds; a refused
/// or unreadable acknowledgement is a bad handshake; a closed connection, a
/// raw frame, a transport error or the end of the stream is a failure of
/// the connection.
pub proof fn lemma_ack_frame_outcomes()
    ensures
        ack_step_spec(Incoming::Payload(Some(HandshakeAck { status: HandshakeStatus::Success })))
            == ReadStep::<(), HandshakeError>::Finish(Ok(())),
        ack_step_spec(Incoming::Payload(Some(HandshakeAck { status: HandshakeStatus::Failure })))
            == ReadStep::<(), HandshakeError>::Finish(Err(HandshakeError::BadHandshake)),
        ack_step_spec(Incoming::Payload(None)) == ReadStep::<(), HandshakeError>::Finish(
            Err(HandshakeError::BadHandshake),
        ),
        ack_step_spec(Incoming::Close) == ReadStep::<(), HandshakeError>::Finish(
            Err(HandshakeError::ConnectionError),
        ),
        ack_step_spec(Incoming::RawFrame) == ReadStep::<(), HandshakeError>::Finish(
            Err(HandshakeError::ConnectionError),
        ),
        ack_step_spec(Incoming::Failed) == ReadStep::<(), HandshakeError>::Finish(
            Err(HandshakeError::ConnectionError),
        ),
        ack_step_spec(Incoming::Ended) == ReadStep::<(), HandshakeError>::Finish(
            Err(HandshakeError::ConnectionError),
        ),
{
}

/// How each frame ends the loop that reads a message within a session: a
/// decoded message is the result as decoded; an undecodable one means no
/// ticker is available; a closed connection or the end of the stream means
/// the session was closed; a raw frame is an invalid message; a transport
/// error is read past.
pub proof fn lemma_message_frame_outcomes<T>()
    ensures
        forall|v: T|
            message_step_spec(Incoming::Payload(Some(v))) == ReadStep::<T, SessionError>::Finish(
                Ok(v),
            ),
        message_step_spec(Incoming::<T>::Payload(None)) == ReadStep::<T, SessionError>::Finish(
            Err(SessionError::NoAvailableTicker),
        ),
        message_step_spec(Incoming::<T>::Close) == ReadStep::<T, SessionError>::Finish(
            Err(SessionError::ConnectionClosed),
        ),
        message_step_spec(Incoming::<T>::Ended) == ReadStep::<T, SessionError>::Finish(
            Err(SessionError::ConnectionClosed),
        ),
        message_step_spec(Incoming::<T>::RawFrame) == ReadStep::<T, SessionError>::Finish(
            Err(SessionError::InvalidMessage),
        ),
        message_step_spec(Incoming::<T>::Failed) == ReadStep::<T, SessionError>::Continue,
{
}

} // verus!
