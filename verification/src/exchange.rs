use vstd::prelude::*;

use crate::frames::{ControlFrame, Incoming, ReadStep};
use crate::messages::{HandshakeAck, ServerMessage, ServerMessageView};

verus! {

/// How writing a message to the broker went.
#[derive(Debug, Clone, Copy, PartialEq, Eq, Structural)]
pub enum WriteOutcome {
    /// The message was encoded and written.
    Written,
    /// The message could not be encoded.
    EncodingFailed,
    /// The transport failed to take the message.
    TransportFailed,
}

/// What the program does for the client next, in an exchange with the
/// broker.
#[derive(Debug, PartialEq, Eq)]
pub enum Action {
    /// Encode and write this message, and report how it went.
    Write(ServerMessage),
    /// Send this frame, if any, then read the next frame, decoding its data
    /// as the answer that the exchange awaits.
    Read(Option<ControlFrame>),
    /// Send this frame, if any, then read the next frame, decoding its data
    /// as an acknowledgement of a handshake.
    ReadAck(Option<ControlFrame>),
}

/// The abstract form of an action: messages are taken by their view.
pub enum ActionView {
    Write(ServerMessageView),
    Read(Option<ControlFrame>),
    ReadAck(Option<ControlFrame>),
}

impl View for Action {
    type V = ActionView;

    open spec fn view(&self) -> ActionView {
        match self {
            Action::Write(m) => ActionView::Write(m@),
            Action::Read(f) => ActionView::Read(*f),
            Action::ReadAck(f) => ActionView::ReadAck(*f),
        }
    }
}

/// What the program reports back after performing an action.
pub enum Event<T> {
    /// The exchange starts.
    Start,
    /// How the write asked for went.
    Written(WriteOutcome),
    /// The frame read for a `Read` action.
    Reply(Incoming<T>),
    /// The frame read for a `ReadAck` action.
    Ack(Incoming<HandshakeAck>),
}

/// Where an exchange within a session stands.
#[derive(Debug, Clone, Copy, PartialEq, Eq, Structural)]
pub enum SessionPhase {
    /// Nothing has been done yet.
    Begin,
    /// The request has been handed to the transport.
    AwaitWrite,
    /// The answer to the request is being read.
    AwaitReply,
    /// The recovery handshake has been handed to the transport.
    RecoverWrite,
    /// The acknowledgement of the recovery handshake is being read.
    RecoverAck,
}

/// The event that the program reports in a phase: the start at the
/// beginning, a write outcome after a write, and a frame of the kind that
/// was asked for after a read.
pub open spec fn fits<T>(phase: SessionPhase, ev: Event<T>) -> bool {
    match phase {
        SessionPhase::Begin => ev is Start,
        SessionPhase::AwaitWrite => ev is Written,
        SessionPhase::AwaitReply => ev is Reply,
        SessionPhase::RecoverWrite => ev is Written,
        SessionPhase::RecoverAck => ev is Ack,
    }
}

/// One turn of an exchange within a session.
#[derive(Debug, PartialEq, Eq)]
pub enum Turn<R> {
    /// Go on in this phase, after performing this action.
    Next(SessionPhase, Action),
    /// The exchange is over, with this result.
    Done(R),
}

/// The abstract form of a turn.
pub enum TurnView<R> {
    Next(SessionPhase, ActionView),
    Done(R),
}

impl<R> View for Turn<R> {
    type V = TurnView<R>;

    open spec fn view(&self) -> TurnView<R> {
        match self {
            Turn::Next(p, a) => TurnView::Next(*p, a@),
            Turn::Done(r) => TurnView::Done(*r),
        }
    }
}

/// The read that follows a step of a reading loop that reads on: the frame
/// it sends, if any, then the next frame of the answer.
pub open spec fn read_on<U, E>(step: ReadStep<U, E>) -> ActionView {
    match step {
        ReadStep::Send(f) => ActionView::Read(Some(f)),
        _ => ActionView::Read(None),
    }
}

/// The same, when the next frame is an acknowledgement of a handshake.
pub open spec fn read_ack_on<U, E>(step: ReadStep<U, E>) -> ActionView {
    match step {
        ReadStep::Send(f) => ActionView::ReadAck(Some(f)),
        _ => ActionView::ReadAck(None),
    }
}

/// An action is taken with its message and frame unchanged, and a turn with
/// its phase, action and result unchanged.
pub proof fn lemma_action_view_keeps_fields<R>(
    m: ServerMessage,
    f: Option<ControlFrame>,
    phase: SessionPhase,
    r: R,
)
    ensures
        Action::Write(m)@ == ActionView::Write(m@),
        Action::Read(f)@ == ActionView::Read(f),
        Action::ReadAck(f)@ == ActionView::ReadAck(f),
        Turn::<R>::Next(phase, Action::Read(f))@ == TurnView::<R>::Next(phase, ActionView::Read(f)),
        Turn::<R>::Next(phase, Action::Write(m))@ == TurnView::<R>::Next(phase, ActionView::Write(m@)),
        Turn::<R>::Done(r)@ == TurnView::<R>::Done(r),
{
}

} // verus!
