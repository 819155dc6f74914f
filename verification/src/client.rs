use std::marker::PhantomData;
use vstd::prelude::*;

use crate::address::{address, connection_string};
use crate::errors::{SessionError, StateError, StateErrorVariant};
use crate::exchange::{
    fits, read_ack_on, read_on, Action, ActionView, Event, SessionPhase, Turn, TurnView,
    WriteOutcome,
};
use crate::frames::{
    ack_step, ack_step_spec, is_control, message_step, message_step_spec, ControlFrame, Incoming,
    ReadStep,
};
use crate::messages::{
    order_view, HandshakeAck, HandshakeStatus, OrderType, PositionType, ServerMessage,
    ServerMessageView,
};

verus! {

/// A phase of a session with the broker, carried in the client's type.
pub trait PositionState {}

/// Before the transport to the broker is open.
pub struct PreConnection;

impl PositionState for PreConnection {}

/// The transport is open; the opening handshake has not succeeded yet.
pub struct PreHandshake;

impl PositionState for PreHandshake {}

/// The broker has acknowledged the handshake; the session is running.
pub struct IntraSession;

impl PositionState for IntraSession {}

/// The session has been closed.
pub struct PostSession;

impl PositionState for PostSession {}

/// The publication cadence that a new session starts with, and that the
/// opening handshake asks the broker for.
pub const DEFAULT_CADENCE: u16 = 5;

/// A new session asks the broker to publish every 5 seconds.
pub proof fn lemma_default_cadence()
    ensures
        DEFAULT_CADENCE == 5,
{
}

/// What a client holds, whatever the phase of its session.
pub struct ClientView {
    pub symbol: Seq<char>,
    pub pub_cadence: nat,
}

/// The state of a client of the broker, with the phase of its session in its
/// type. The transport itself is held beside it by the program.
pub struct MessageBrokerClient<S: PositionState> {
    symbol: String,
    pub_cadence: usize,
    state: PhantomData<S>,
}

impl<S: PositionState> View for MessageBrokerClient<S> {
    type V = ClientView;

    closed spec fn view(&self) -> ClientView {
        ClientView { symbol: self.symbol@, pub_cadence: self.pub_cadence as nat }
    }
}

/// Where the opening handshake stands.
#[derive(Debug, Clone, Copy, PartialEq, Eq, Structural)]
pub enum HandshakePhase {
    /// Nothing has been done yet.
    Begin,
    /// The handshake message has been handed to the transport.
    AwaitWrite,
    /// The broker's acknowledgement is being read.
    AwaitAck,
}

/// The event that the program reports in a phase of the handshake.
pub open spec fn fits_handshake(phase: HandshakePhase, ev: Event<HandshakeAck>) -> bool {
    match phase {
        HandshakePhase::Begin => ev is Start,
        HandshakePhase::AwaitWrite => ev is Written,
        HandshakePhase::AwaitAck => ev is Reply,
    }
}

/// One turn of the opening handshake.
pub enum HandshakeTurn {
    /// Go on in this phase with this client, after performing this action.
    Next(MessageBrokerClient<PreHandshake>, HandshakePhase, Action),
    /// The handshake is over: the session starts, or the client is handed
    /// back.
    Done(Result<MessageBrokerClient<IntraSession>, MessageBrokerClient<PreHandshake>>),
}

/// The abstract form of a turn of the handshake.
pub enum HandshakeTurnView {
    Next(ClientView, HandshakePhase, ActionView),
    Done(Result<ClientView, ClientView>),
}

impl View for HandshakeTurn {
    type V = HandshakeTurnView;

    open spec fn view(&self) -> HandshakeTurnView {
        match self {
            HandshakeTurn::Next(c, p, a) => HandshakeTurnView::Next(c@, *p, a@),
            HandshakeTurn::Done(Ok(c)) => HandshakeTurnView::Done(Ok(c@)),
            HandshakeTurn::Done(Err(c)) => HandshakeTurnView::Done(Err(c@)),
        }
    }
}

/// The message that opens a session about `symbol` for a position of type
/// `pt`.
pub open spec fn handshake_message_view(symbol: Seq<char>, pt: PositionType) -> ServerMessageView {
    ServerMessageView::SessionHandshake {
        symbol,
        publish_cadence: DEFAULT_CADENCE,
        position_type: pt,
    }
}

/// The opening handshake, turn by turn: the handshake message is written
/// first; the acknowledgement is read only once it was written, and a
/// failed write hands the client back; pings are answered and pongs
/// skipped; a successful acknowledgement starts the session, and any other
/// frame hands the client back.
pub open spec fn handshake_spec(
    c: ClientView,
    pt: PositionType,
    phase: HandshakePhase,
    ev: Event<HandshakeAck>,
) -> HandshakeTurnView {
    match phase {
        HandshakePhase::Begin => HandshakeTurnView::Next(
            c,
            HandshakePhase::AwaitWrite,
            ActionView::Write(handshake_message_view(c.symbol, pt)),
        ),
        HandshakePhase::AwaitWrite => if ev == Event::<HandshakeAck>::Written(WriteOutcome::Written) {
            HandshakeTurnView::Next(c, HandshakePhase::AwaitAck, ActionView::Read(None))
        } else {
            HandshakeTurnView::Done(Err(c))
        },
        HandshakePhase::AwaitAck => match ev {
            Event::Reply(frame) => match ack_step_spec(frame) {
                ReadStep::Finish(Ok(())) => HandshakeTurnView::Done(Ok(c)),
                ReadStep::Finish(Err(_)) => HandshakeTurnView::Done(Err(c)),
                step => HandshakeTurnView::Next(c, HandshakePhase::AwaitAck, read_on(step)),
            },
            _ => arbitrary(),
        },
    }
}

/// The message that resumes a session about `symbol`.
pub open spec fn recovery_message_view(symbol: Seq<char>) -> ServerMessageView {
    ServerMessageView::RecoveryHandshake { symbol }
}

/// The turn that starts the recovery handshake of a session about `symbol`.
pub open spec fn start_recovery<R>(symbol: Seq<char>) -> TurnView<R> {
    TurnView::Next(SessionPhase::RecoverWrite, ActionView::Write(recovery_message_view(symbol)))
}

/// The recovery handshake of a session about `symbol`, turn by turn: the
/// recovery message is written; a failed write means the connection is
/// closed; then pings are answered and pongs and transport errors skipped;
/// a successful acknowledgement resumes the session, a refusal means the
/// recovery failed, and any other end of the read is an invalid message.
pub open spec fn recovery_spec<T>(symbol: Seq<char>, phase: SessionPhase, ev: Event<T>) -> TurnView<
    Result<(), StateError>,
> {
    match phase {
        SessionPhase::Begin => start_recovery(symbol),
        SessionPhase::RecoverWrite => if ev == Event::<T>::Written(WriteOutcome::Written) {
            TurnView::Next(SessionPhase::RecoverAck, ActionView::ReadAck(None))
        } else {
            TurnView::Done(Err(StateError { error: StateErrorVariant::ConnectionClosed }))
        },
        SessionPhase::RecoverAck => match ev {
            Event::Ack(frame) => match message_step_spec(frame) {
                ReadStep::Finish(Ok(ack)) => if ack.status == HandshakeStatus::Success {
                    TurnView::Done(Ok(()))
                } else {
                    TurnView::Done(Err(StateError { error: StateErrorVariant::UnsuccessfulHandshake }))
                },
                ReadStep::Finish(Err(_)) => TurnView::Done(
                    Err(StateError { error: StateErrorVariant::InvalidMessage }),
                ),
                step => TurnView::Next(SessionPhase::RecoverAck, read_ack_on(step)),
            },
            _ => arbitrary(),
        },
        _ => arbitrary(),
    }
}

/// An order of `order_size` (by its bit pattern) in the direction
/// `order_type`, turn by turn: the order is written; a failed write leads
/// to the recovery handshake; then pings are answered and pongs and
/// transport errors skipped; the broker's acknowledgement is the result; a
/// closed connection leads to the recovery handshake, after which the order
/// fails with the closed connection; any other failure is the result.
pub open spec fn submit_order_spec<T>(
    symbol: Seq<char>,
    order_size: u32,
    order_type: OrderType,
    phase: SessionPhase,
    ev: Event<T>,
) -> TurnView<Result<T, SessionError>> {
    match phase {
        SessionPhase::Begin => TurnView::Next(
            SessionPhase::AwaitWrite,
            ActionView::Write(order_view(order_size, order_type)),
        ),
        SessionPhase::AwaitWrite => if ev == Event::<T>::Written(WriteOutcome::Written) {
            TurnView::Next(SessionPhase::AwaitReply, ActionView::Read(None))
        } else {
            start_recovery(symbol)
        },
        SessionPhase::AwaitReply => match ev {
            Event::Reply(frame) => match message_step_spec(frame) {
                ReadStep::Finish(Ok(ack)) => TurnView::Done(Ok(ack)),
                ReadStep::Finish(Err(SessionError::ConnectionClosed)) => start_recovery(symbol),
                ReadStep::Finish(Err(e)) => TurnView::Done(Err(e)),
                step => TurnView::Next(SessionPhase::AwaitReply, read_on(step)),
            },
            _ => arbitrary(),
        },
        _ => match recovery_spec(symbol, phase, ev) {
            TurnView::Next(p, a) => TurnView::Next(p, a),
            TurnView::Done(_) => TurnView::Done(Err(SessionError::ConnectionClosed)),
        },
    }
}

/// The read of a ticker, turn by turn: pings are answered and pongs and
/// transport errors skipped; a read ticker (or none) is the result; a closed
/// connection leads to the recovery handshake, after which there is no
/// ticker, or the recovery's error; any other failure is an invalid
/// message.
pub open spec fn retrieve_ticker_spec<T>(
    symbol: Seq<char>,
    phase: SessionPhase,
    ev: Event<Option<T>>,
) -> TurnView<Result<Option<T>, StateError>> {
    match phase {
        SessionPhase::Begin => TurnView::Next(SessionPhase::AwaitReply, ActionView::Read(None)),
        SessionPhase::AwaitReply => match ev {
            Event::Reply(frame) => match message_step_spec(frame) {
                ReadStep::Finish(Ok(t)) => TurnView::Done(Ok(t)),
                ReadStep::Finish(Err(SessionError::ConnectionClosed)) => start_recovery(symbol),
                ReadStep::Finish(Err(_)) => TurnView::Done(
                    Err(StateError { error: StateErrorVariant::InvalidMessage }),
                ),
                step => TurnView::Next(SessionPhase::AwaitReply, read_on(step)),
            },
            _ => arbitrary(),
        },
        _ => match recovery_spec(symbol, phase, ev) {
            TurnView::Next(p, a) => TurnView::Next(p, a),
            TurnView::Done(Ok(())) => TurnView::Done(Ok(None)),
            TurnView::Done(Err(e)) => TurnView::Done(Err(e)),
        },
    }
}

/// An update of the parameters, turn by turn: a cadence that the message
/// cannot carry is an invalid message; otherwise the subscription with the
/// new cadence and `window` is written; a failed write means the connection
/// is closed; then pings are answered and pongs and transport errors
/// skipped; any answer acknowledges the update, and a failed read is the
/// result.
pub open spec fn update_parameters_spec<T>(
    cadence: usize,
    window: u16,
    phase: SessionPhase,
    ev: Event<T>,
) -> TurnView<Result<(), SessionError>> {
    match phase {
        SessionPhase::Begin => if cadence <= u16::MAX {
            TurnView::Next(
                SessionPhase::AwaitWrite,
                ActionView::Write(
                    ServerMessageView::Subscribe { publish_cadence: cadence as u16, window },
                ),
            )
        } else {
            TurnView::Done(Err(SessionError::InvalidMessage))
        },
        SessionPhase::AwaitWrite => if ev == Event::<T>::Written(WriteOutcome::Written) {
            TurnView::Next(SessionPhase::AwaitReply, ActionView::Read(None))
        } else {
            TurnView::Done(Err(SessionError::ConnectionClosed))
        },
        SessionPhase::AwaitReply => match ev {
            Event::Reply(frame) => match message_step_spec(frame) {
                ReadStep::Finish(Ok(_)) => TurnView::Done(Ok(())),
                ReadStep::Finish(Err(e)) => TurnView::Done(Err(e)),
                step => TurnView::Next(SessionPhase::AwaitReply, read_on(step)),
            },
            _ => arbitrary(),
        },
        _ => arbitrary(),
    }
}

impl<S: PositionState> MessageBrokerClient<S> {
    /// The symbol of the entity that the session is about.
    pub fn symbol(&self) -> (s: &String)
        ensures
            s@ == self@.symbol,
    {
        &self.symbol
    }

    /// The publication cadence that the client asks of the broker.
    pub fn pub_cadence(&self) -> (c: usize)
        ensures
            c == self@.pub_cadence,
    {
        self.pub_cadence
    }
}

impl MessageBrokerClient<PreConnection> {
    /// The client of a session about `symbol`, which starts with the
    /// default cadence and still has to perform the handshake, together
    /// with the address that the program opens the transport to:
    /// `url:port`, then `/endpoint` where one is given.
    pub fn new(symbol: String, url: &str, port: usize, endpoint: Option<&str>) -> (r: (
        MessageBrokerClient<PreHandshake>,
        String,
    ))
        ensures
            r.0@.symbol == symbol@,
            r.0@.pub_cadence == DEFAULT_CADENCE,
            r.1@ == address(url@, port as nat, match endpoint {
                Some(e) => Some(e@),
                None => None,
            }),
    {
        let client = MessageBrokerClient::<PreHandshake> {
            symbol,
            pub_cadence: DEFAULT_CADENCE as usize,
            state: PhantomData::<PreHandshake>,
        };
        (client, connection_string(url, port, endpoint))
    }
}

impl MessageBrokerClient<PreHandshake> {
    /// One turn of the opening handshake for a position of type `pt`, from
    /// its phase and the event that the program reports. The session starts
    /// only after the handshake message was written and a successful
    /// acknowledgement read; otherwise the client is handed back unchanged.
    pub fn handshake(self, pt: PositionType, phase: HandshakePhase, ev: Event<HandshakeAck>) -> (r:
        HandshakeTurn)
        requires
            fits_handshake(phase, ev),
        ensures
            r@ == handshake_spec(self@, pt, phase, ev),
    {
        match phase {
            HandshakePhase::Begin => {
                let m = ServerMessage::SessionHandshake {
                    symbol: self.symbol.clone(),
                    publish_cadence: DEFAULT_CADENCE,
                    position_type: pt,
                };
                HandshakeTurn::Next(self, HandshakePhase::AwaitWrite, Action::Write(m))
            },
            HandshakePhase::AwaitWrite => match ev {
                Event::Written(WriteOutcome::Written) => HandshakeTurn::Next(
                    self,
                    HandshakePhase::AwaitAck,
                    Action::Read(None),
                ),
                _ => HandshakeTurn::Done(Err(self)),
            },
            HandshakePhase::AwaitAck => match ev {
                Event::Reply(frame) => match ack_step(frame) {
                    ReadStep::Finish(Ok(())) => {
                        let MessageBrokerClient { symbol, pub_cadence, .. } = self;
                        HandshakeTurn::Done(
                            Ok(
                                MessageBrokerClient::<IntraSession> {
                                    symbol,
                                    pub_cadence,
                                    state: PhantomData::<IntraSession>,
                                },
                            ),
                        )
                    },
                    ReadStep::Finish(Err(_)) => HandshakeTurn::Done(Err(self)),
                    ReadStep::Send(f) => HandshakeTurn::Next(
                        self,
                        HandshakePhase::AwaitAck,
                        Action::Read(Some(f)),
                    ),
                    ReadStep::Continue => HandshakeTurn::Next(
                        self,
                        HandshakePhase::AwaitAck,
                        Action::Read(None),
                    ),
                },
                _ => vstd::pervasive::unreached(),
            },
        }
    }
}

impl MessageBrokerClient<IntraSession> {
    /// One turn of the recovery handshake, which resumes a session that the
    /// broker closed; the broker's refusal is reported as a failed recovery.
    pub fn recovery_handshake<T>(&self, phase: SessionPhase, ev: Event<T>) -> (r: Turn<
        Result<(), StateError>,
    >)
        requires
            fits(phase, ev),
            phase is Begin || phase is RecoverWrite || phase is RecoverAck,
        ensures
            r@ == recovery_spec(self@.symbol, phase, ev),
    {
        match phase {
            SessionPhase::Begin => Turn::Next(
                SessionPhase::RecoverWrite,
                Action::Write(ServerMessage::RecoveryHandshake { symbol: self.symbol.clone() }),
            ),
            SessionPhase::RecoverWrite => match ev {
                Event::Written(WriteOutcome::Written) => Turn::Next(
                    SessionPhase::RecoverAck,
                    Action::ReadAck(None),
                ),
                _ => Turn::Done(Err(StateError::connection_closed())),
            },
            SessionPhase::RecoverAck => match ev {
                Event::Ack(frame) => match message_step(frame) {
                    ReadStep::Finish(Ok(ack)) => {
                        if matches!(ack.status, HandshakeStatus::Success) {
                            Turn::Done(Ok(()))
                        } else {
                            Turn::Done(Err(StateError::new(StateErrorVariant::UnsuccessfulHandshake)))
                        }
                    },
                    ReadStep::Finish(Err(_)) => Turn::Done(
                        Err(StateError::new(StateErrorVariant::InvalidMessage)),
                    ),
                    ReadStep::Send(f) => Turn::Next(SessionPhase::RecoverAck, Action::ReadAck(Some(f))),
                    ReadStep::Continue => Turn::Next(SessionPhase::RecoverAck, Action::ReadAck(None)),
                },
                _ => vstd::pervasive::unreached(),
            },
            _ => vstd::pervasive::unreached(),
        }
    }

    /// One turn of an order of `order_size` (by its bit pattern) in the
    /// direction `order_type`, from its phase and the event that the program
    /// reports. A terminated connection, at the write or in the answer,
    /// leads to the recovery handshake.
    pub fn submit_order<T>(
        &self,
        order_size: u32,
        order_type: OrderType,
        phase: SessionPhase,
        ev: Event<T>,
    ) -> (r: Turn<Result<T, SessionError>>)
        requires
            fits(phase, ev),
        ensures
            r@ == submit_order_spec(self@.symbol, order_size, order_type, phase, ev),
    {
        match phase {
            SessionPhase::Begin => {
                let m = match order_type {
                    OrderType::Buy => ServerMessage::SubmitBuyOrder { buy_order: order_size },
                    OrderType::Sell => ServerMessage::SubmitSellOrder { sell_order: order_size },
                };
                Turn::Next(SessionPhase::AwaitWrite, Action::Write(m))
            },
            SessionPhase::AwaitWrite => match ev {
                Event::Written(WriteOutcome::Written) => Turn::Next(
                    SessionPhase::AwaitReply,
                    Action::Read(None),
                ),
                _ => self.recovery_handshake::<T>(SessionPhase::Begin, Event::Start).relabel(),
            },
            SessionPhase::AwaitReply => match ev {
                Event::Reply(frame) => match message_step(frame) {
                    ReadStep::Finish(Ok(ack)) => Turn::Done(Ok(ack)),
                    ReadStep::Finish(Err(SessionError::ConnectionClosed)) => self.recovery_handshake::<
                        T,
                    >(SessionPhase::Begin, Event::Start).relabel(),
                    ReadStep::Finish(Err(e)) => Turn::Done(Err(e)),
                    ReadStep::Send(f) => Turn::Next(SessionPhase::AwaitReply, Action::Read(Some(f))),
                    ReadStep::Continue => Turn::Next(SessionPhase::AwaitReply, Action::Read(None)),
                },
                _ => vstd::pervasive::unreached(),
            },
            _ => match self.recovery_handshake(phase, ev) {
                Turn::Next(p, a) => Turn::Next(p, a),
                Turn::Done(_) => Turn::Done(Err(SessionError::ConnectionClosed)),
            },
        }
    }

    /// One turn of an order that sells `order_size` (by its bit pattern).
    pub fn submit_sell_order<T>(&self, order_size: u32, phase: SessionPhase, ev: Event<T>) -> (r:
        Turn<Result<T, SessionError>>)
        requires
            fits(phase, ev),
        ensures
            r@ == submit_order_spec(self@.symbol, order_size, OrderType::Sell, phase, ev),
    {
        self.submit_order(order_size, OrderType::Sell, phase, ev)
    }

    /// One turn of an order that buys `order_size` (by its bit pattern).
    pub fn submit_buy_order<T>(&self, order_size: u32, phase: SessionPhase, ev: Event<T>) -> (r:
        Turn<Result<T, SessionError>>)
        requires
            fits(phase, ev),
        ensures
            r@ == submit_order_spec(self@.symbol, order_size, OrderType::Buy, phase, ev),
    {
        self.submit_order(order_size, OrderType::Buy, phase, ev)
    }

    /// One turn of the read of a ticker, from its phase and the event that
    /// the program reports. A connection closed by the broker leads to the
    /// recovery handshake.
    pub fn retrieve_ticker<T>(&self, phase: SessionPhase, ev: Event<Option<T>>) -> (r: Turn<
        Result<Option<T>, StateError>,
    >)
        requires
            fits(phase, ev),
            !(phase is AwaitWrite),
        ensures
            r@ == retrieve_ticker_spec(self@.symbol, phase, ev),
    {
        match phase {
            SessionPhase::Begin => Turn::Next(SessionPhase::AwaitReply, Action::Read(None)),
            SessionPhase::AwaitReply => match ev {
                Event::Reply(frame) => match message_step(frame) {
                    ReadStep::Finish(Ok(t)) => Turn::Done(Ok(t)),
                    ReadStep::Finish(Err(SessionError::ConnectionClosed)) => self.recovery_handshake::<
                        Option<T>,
                    >(SessionPhase::Begin, Event::Start).relabel(),
                    ReadStep::Finish(Err(_)) => Turn::Done(
                        Err(StateError::new(StateErrorVariant::InvalidMessage)),
                    ),
                    ReadStep::Send(f) => Turn::Next(SessionPhase::AwaitReply, Action::Read(Some(f))),
                    ReadStep::Continue => Turn::Next(SessionPhase::AwaitReply, Action::Read(None)),
                },
                _ => vstd::pervasive::unreached(),
            },
            _ => match self.recovery_handshake(phase, ev) {
                Turn::Next(p, a) => Turn::Next(p, a),
                Turn::Done(Ok(())) => Turn::Done(Ok(None)),
                Turn::Done(Err(e)) => Turn::Done(Err(e)),
            },
        }
    }

    /// One turn of an update of the parameters: at the beginning the
    /// publication cadence becomes `cadence`, and the subscription with it
    /// and `window` is sent; the broker's answer acknowledges it.
    pub fn update_parameters<T>(&mut self, cadence: usize, window: u16, phase: SessionPhase, ev: Event<T>) -> (r: Turn<
        Result<(), SessionError>,
    >)
        requires
            fits(phase, ev),
            phase is Begin || phase is AwaitWrite || phase is AwaitReply,
        ensures
            final(self)@.symbol == old(self)@.symbol,
            final(self)@.pub_cadence == if phase is Begin {
                cadence as nat
            } else {
                old(self)@.pub_cadence
            },
            r@ == update_parameters_spec(cadence, window, phase, ev),
    {
        match phase {
            SessionPhase::Begin => {
                self.pub_cadence = cadence;
                if cadence <= 65535 {
                    Turn::Next(
                        SessionPhase::AwaitWrite,
                        Action::Write(
                            ServerMessage::Subscribe { publish_cadence: cadence as u16, window },
                        ),
                    )
                } else {
                    Turn::Done(Err(SessionError::InvalidMessage))
                }
            },
            SessionPhase::AwaitWrite => match ev {
                Event::Written(WriteOutcome::Written) => Turn::Next(
                    SessionPhase::AwaitReply,
                    Action::Read(None),
                ),
                _ => Turn::Done(Err(SessionError::ConnectionClosed)),
            },
            SessionPhase::AwaitReply => match ev {
                Event::Reply(frame) => match message_step(frame) {
                    ReadStep::Finish(Ok(_)) => Turn::Done(Ok(())),
                    ReadStep::Finish(Err(e)) => Turn::Done(Err(e)),
                    ReadStep::Send(f) => Turn::Next(SessionPhase::AwaitReply, Action::Read(Some(f))),
                    ReadStep::Continue => Turn::Next(SessionPhase::AwaitReply, Action::Read(None)),
                },
                _ => vstd::pervasive::unreached(),
            },
            _ => vstd::pervasive::unreached(),
        }
    }

    /// Ends the session, keeping the client's symbol and cadence; the
    /// returned frame, a close frame, is sent to the broker so that it can
    /// clean up the session.
    pub fn close_connection(self) -> (r: (MessageBrokerClient<PostSession>, ControlFrame))
        ensures
            r.0@ == self@,
            r.1 is Close,
    {
        let MessageBrokerClient { symbol, pub_cadence, .. } = self;
        (
            MessageBrokerClient { symbol, pub_cadence, state: PhantomData::<PostSession> },
            ControlFrame::Close,
        )
    }
}

/// A turn of the handshake is taken with its client, phase, action and
/// outcome unchanged: a started session stays started and a handed-back
/// client stays handed back.
pub proof fn lemma_handshake_turn_view_keeps_fields(
    started: MessageBrokerClient<IntraSession>,
    back: MessageBrokerClient<PreHandshake>,
    phase: HandshakePhase,
    f: Option<ControlFrame>,
)
    ensures
        HandshakeTurn::Done(Ok(started))@ == HandshakeTurnView::Done(Ok(started@)),
        HandshakeTurn::Done(Err(back))@ == HandshakeTurnView::Done(Err(back@)),
        HandshakeTurn::Next(back, phase, Action::Read(f))@ == HandshakeTurnView::Next(
            back@,
            phase,
            ActionView::Read(f),
        ),
{
}

/// The actions taken, and the result reached, when the handshake is driven
/// from `phase` by the events `evs` in turn; no result when the events run
/// out first.
pub open spec fn handshake_run(
    c: ClientView,
    pt: PositionType,
    phase: HandshakePhase,
    evs: Seq<Event<HandshakeAck>>,
) -> (Seq<ActionView>, Option<Result<ClientView, ClientView>>)
    decreases evs.len(),
{
    if evs.len() == 0 {
        (seq![], None)
    } else {
        match handshake_spec(c, pt, phase, evs[0]) {
            HandshakeTurnView::Next(c2, p2, a) => {
                let rest = handshake_run(c2, pt, p2, evs.drop_first());
                (seq![a] + rest.0, rest.1)
            },
            HandshakeTurnView::Done(res) => (seq![], Some(res)),
        }
    }
}

/// The frame is a successful acknowledgement of the handshake.
pub open spec fn acknowledges(frame: Incoming<HandshakeAck>) -> bool {
    frame matches Incoming::Payload(Some(ack)) && ack.status == HandshakeStatus::Success
}

proof fn lemma_awaiting_ack_run(
    c: ClientView,
    pt: PositionType,
    pre: Seq<Incoming<HandshakeAck>>,
    decisive: Incoming<HandshakeAck>,
    tail: Seq<Event<HandshakeAck>>,
)
    requires
        forall|i: int| 0 <= i < pre.len() ==> is_control(#[trigger] pre[i]),
        !is_control(decisive),
    ensures
        handshake_run(
            c,
            pt,
            HandshakePhase::AwaitAck,
            pre.map_values(|f: Incoming<HandshakeAck>| Event::Reply(f)) + seq![Event::Reply(decisive)]
                + tail,
        ) == (
            pre.map_values(|f: Incoming<HandshakeAck>| read_on(ack_step_spec(f))),
            Some(if acknowledges(decisive) { Ok(c) } else { Err(c) }),
        ),
    decreases pre.len(),
{
    let evs = pre.map_values(|f: Incoming<HandshakeAck>| Event::Reply(f)) + seq![
        Event::Reply(decisive),
    ] + tail;
    if pre.len() == 0 {
        assert(evs[0] == Event::<HandshakeAck>::Reply(decisive));
    } else {
        let rest = pre.drop_first();
        assert(evs.drop_first() =~= rest.map_values(|f: Incoming<HandshakeAck>| Event::Reply(f))
            + seq![Event::Reply(decisive)] + tail);
        assert(evs[0] == Event::<HandshakeAck>::Reply(pre[0]));
        assert(is_control(pre[0]));
        assert forall|i: int| 0 <= i < rest.len() implies is_control(#[trigger] rest[i]) by {
            assert(rest[i] == pre[i + 1]);
        }
        lemma_awaiting_ack_run(c, pt, rest, decisive, tail);
        assert(pre.map_values(|f: Incoming<HandshakeAck>| read_on(ack_step_spec(f))) =~= seq![
            read_on(ack_step_spec(pre[0])),
        ] + rest.map_values(|f: Incoming<HandshakeAck>| read_on(ack_step_spec(f))));
    }
}

/// Once the handshake message is written, whatever frames follow: the
/// pings before the first frame that is neither a ping nor a pong are
/// answered in order, nothing after that frame is read, and the session
/// starts exactly when that frame is a successful acknowledgement; otherwise
/// the client is handed back unchanged.
pub proof fn lemma_handshake_decided_by_acknowledgement(
    c: ClientView,
    pt: PositionType,
    pre: Seq<Incoming<HandshakeAck>>,
    decisive: Incoming<HandshakeAck>,
    tail: Seq<Event<HandshakeAck>>,
)
    requires
        forall|i: int| 0 <= i < pre.len() ==> is_control(#[trigger] pre[i]),
        !is_control(decisive),
    ensures
        handshake_run(
            c,
            pt,
            HandshakePhase::Begin,
            seq![Event::Start, Event::Written(WriteOutcome::Written)] + pre.map_values(
                |f: Incoming<HandshakeAck>| Event::Reply(f),
            ) + seq![Event::Reply(decisive)] + tail,
        ) == (
            seq![ActionView::Write(ServerMessageView::SessionHandshake {
            symbol: c.symbol,
            publish_cadence: 5,
            position_type: pt,
        }), ActionView::Read(None)]
                + pre.map_values(|f: Incoming<HandshakeAck>| read_on(ack_step_spec(f))),
            Some(if acknowledges(decisive) { Ok(c) } else { Err(c) }),
        ),
{
    let after = pre.map_values(|f: Incoming<HandshakeAck>| Event::Reply(f)) + seq![
        Event::Reply(decisive),
    ] + tail;
    let evs = seq![Event::Start, Event::Written(WriteOutcome::Written)] + after;
    assert(evs =~= seq![Event::Start, Event::Written(WriteOutcome::Written)] + pre.map_values(
        |f: Incoming<HandshakeAck>| Event::Reply(f),
    ) + seq![Event::Reply(decisive)] + tail);
    assert(evs.drop_first().drop_first() =~= after);
    assert(evs.drop_first()[0] == Event::<HandshakeAck>::Written(WriteOutcome::Written));
    assert(evs[0] == Event::<HandshakeAck>::Start);
    lemma_awaiting_ack_run(c, pt, pre, decisive, tail);
    let r2 = handshake_run(c, pt, HandshakePhase::AwaitAck, after);
    let r1 = handshake_run(c, pt, HandshakePhase::AwaitWrite, evs.drop_first());
    assert(r1 == (seq![ActionView::Read(None)] + r2.0, r2.1));
    let r0 = handshake_run(c, pt, HandshakePhase::Begin, evs);
    assert(r0 == (seq![ActionView::Write(ServerMessageView::SessionHandshake {
            symbol: c.symbol,
            publish_cadence: 5,
            position_type: pt,
        })] + r1.0, r1.1));
    assert(r0.0 =~= seq![
        ActionView::Write(ServerMessageView::SessionHandshake {
            symbol: c.symbol,
            publish_cadence: 5,
            position_type: pt,
        }),
        ActionView::Read(None),
    ] + pre.map_values(|f: Incoming<HandshakeAck>| read_on(ack_step_spec(f))));
}

/// When the handshake message cannot be written, the client is handed back
/// unchanged and nothing is read.
pub proof fn lemma_failed_handshake_write_reads_nothing(
    c: ClientView,
    pt: PositionType,
    outcome: WriteOutcome,
    tail: Seq<Event<HandshakeAck>>,
)
    requires
        outcome != WriteOutcome::Written,
    ensures
        handshake_run(
            c,
            pt,
            HandshakePhase::Begin,
            seq![Event::Start, Event::Written(outcome)] + tail,
        ) == (seq![ActionView::Write(ServerMessageView::SessionHandshake {
            symbol: c.symbol,
            publish_cadence: 5,
            position_type: pt,
        })], Some(
            Err::<ClientView, ClientView>(c),
        )),
{
    let evs = seq![Event::Start, Event::Written(outcome)] + tail;
    assert(evs[0] == Event::<HandshakeAck>::Start);
    assert(evs.drop_first()[0] == Event::<HandshakeAck>::Written(outcome));
    assert(Event::<HandshakeAck>::Written(outcome) != Event::<HandshakeAck>::Written(
        WriteOutcome::Written,
    ));
    let r1 = handshake_run(c, pt, HandshakePhase::AwaitWrite, evs.drop_first());
    assert(r1 == (Seq::<ActionView>::empty(), Some(Err::<ClientView, ClientView>(c))));
    let r0 = handshake_run(c, pt, HandshakePhase::Begin, evs);
    assert(r0 == (seq![ActionView::Write(ServerMessageView::SessionHandshake {
            symbol: c.symbol,
            publish_cadence: 5,
            position_type: pt,
        })] + r1.0, r1.1));
    assert(r0.0 =~= seq![ActionView::Write(ServerMessageView::SessionHandshake {
            symbol: c.symbol,
            publish_cadence: 5,
            position_type: pt,
        })]);
}

/// The actions taken, and the result reached, when an exchange within a
/// session that takes each turn with `step` is driven from `phase` by the
/// events `evs` in turn; no result when the events run out first.
pub open spec fn session_run<T, R>(
    step: spec_fn(SessionPhase, Event<T>) -> TurnView<R>,
    phase: SessionPhase,
    evs: Seq<Event<T>>,
) -> (Seq<ActionView>, Option<R>)
    decreases evs.len(),
{
    if evs.len() == 0 {
        (seq![], None)
    } else {
        match step(phase, evs[0]) {
            TurnView::Next(p, a) => {
                let rest = session_run(step, p, evs.drop_first());
                (seq![a] + rest.0, rest.1)
            },
            TurnView::Done(r) => (seq![], Some(r)),
        }
    }
}

/// A read of a ticker that meets a connection closed by the broker sends the
/// recovery message; once the broker acknowledges it, the read yields no
/// ticker, and when it cannot be written, the read fails with the closed
/// connection.
pub proof fn lemma_ticker_read_recovers<T>(
    symbol: Seq<char>,
    answer: HandshakeAck,
    outcome: WriteOutcome,
)
    requires
        answer.status == HandshakeStatus::Success,
        outcome != WriteOutcome::Written,
    ensures
        session_run(
            |p: SessionPhase, e: Event<Option<T>>| retrieve_ticker_spec::<T>(symbol, p, e),
            SessionPhase::Begin,
            seq![
                Event::Start,
                Event::Reply(Incoming::Close),
                Event::Written(WriteOutcome::Written),
                Event::Ack(Incoming::Payload(Some(answer))),
            ],
        ) == (
            seq![
                ActionView::Read(None),
                ActionView::Write(ServerMessageView::RecoveryHandshake { symbol }),
                ActionView::ReadAck(None),
            ],
            Some(Ok::<Option<T>, StateError>(None)),
        ),
        session_run(
            |p: SessionPhase, e: Event<Option<T>>| retrieve_ticker_spec::<T>(symbol, p, e),
            SessionPhase::Begin,
            seq![Event::Start, Event::Reply(Incoming::Close), Event::Written(outcome)],
        ) == (
            seq![ActionView::Read(None), ActionView::Write(ServerMessageView::RecoveryHandshake { symbol })],
            Some(
                Err::<Option<T>, StateError>(
                    StateError { error: StateErrorVariant::ConnectionClosed },
                ),
            ),
        ),
{
    let step = |p: SessionPhase, e: Event<Option<T>>| retrieve_ticker_spec::<T>(symbol, p, e);
    let evs = seq![
        Event::Start,
        Event::Reply(Incoming::Close),
        Event::Written(WriteOutcome::Written),
        Event::Ack(Incoming::Payload(Some(answer))),
    ];
    let e3 = evs.drop_first().drop_first().drop_first();
    let e2 = evs.drop_first().drop_first();
    let e1 = evs.drop_first();
    assert(e3.drop_first().len() == 0);
    let r3 = session_run(step, SessionPhase::RecoverAck, e3);
    assert(r3 == (Seq::<ActionView>::empty(), Some(Ok::<Option<T>, StateError>(None))));
    let r2 = session_run(step, SessionPhase::RecoverWrite, e2);
    assert(r2 == (seq![ActionView::ReadAck(None)] + r3.0, r3.1));
    let r1 = session_run(step, SessionPhase::AwaitReply, e1);
    assert(r1 == (seq![ActionView::Write(ServerMessageView::RecoveryHandshake { symbol })] + r2.0, r2.1));
    let r0 = session_run(step, SessionPhase::Begin, evs);
    assert(r0 == (seq![ActionView::Read(None)] + r1.0, r1.1));
    assert(r0.0 =~= seq![
        ActionView::Read(None),
        ActionView::Write(ServerMessageView::RecoveryHandshake { symbol }),
        ActionView::ReadAck(None),
    ]);

    let fvs = seq![Event::Start, Event::Reply(Incoming::Close), Event::Written(outcome)];
    let f2 = fvs.drop_first().drop_first();
    let f1 = fvs.drop_first();
    assert(f2[0] == Event::<Option<T>>::Written(outcome));
    let q2 = session_run(step, SessionPhase::RecoverWrite, f2);
    assert(q2 == (
        Seq::<ActionView>::empty(),
        Some(Err::<Option<T>, StateError>(StateError { error: StateErrorVariant::ConnectionClosed })),
    ));
    let q1 = session_run(step, SessionPhase::AwaitReply, f1);
    assert(q1 == (seq![ActionView::Write(ServerMessageView::RecoveryHandshake { symbol })] + q2.0, q2.1));
    let q0 = session_run(step, SessionPhase::Begin, fvs);
    assert(q0 == (seq![ActionView::Read(None)] + q1.0, q1.1));
    assert(q0.0 =~= seq![ActionView::Read(None), ActionView::Write(ServerMessageView::RecoveryHandshake { symbol })]);
}

/// An order whose answer is a closed connection, or which cannot be written,
/// is followed by the recovery message; whatever the broker answers to it,
/// the order fails with the closed connection.
pub proof fn lemma_order_recovers<T>(
    symbol: Seq<char>,
    order_size: u32,
    order_type: OrderType,
    answer: HandshakeAck,
    outcome: WriteOutcome,
)
    requires
        outcome != WriteOutcome::Written,
    ensures
        session_run(
            |p: SessionPhase, e: Event<T>|
                submit_order_spec::<T>(symbol, order_size, order_type, p, e),
            SessionPhase::Begin,
            seq![
                Event::Start,
                Event::Written(WriteOutcome::Written),
                Event::Reply(Incoming::Close),
                Event::Written(WriteOutcome::Written),
                Event::Ack(Incoming::Payload(Some(answer))),
            ],
        ) == (
            seq![
                ActionView::Write((if order_type == OrderType::Buy {
            ServerMessageView::SubmitBuyOrder { buy_order: order_size }
        } else {
            ServerMessageView::SubmitSellOrder { sell_order: order_size }
        })),
                ActionView::Read(None),
                ActionView::Write(ServerMessageView::RecoveryHandshake { symbol }),
                ActionView::ReadAck(None),
            ],
            Some(Err::<T, SessionError>(SessionError::ConnectionClosed)),
        ),
        session_run(
            |p: SessionPhase, e: Event<T>|
                submit_order_spec::<T>(symbol, order_size, order_type, p, e),
            SessionPhase::Begin,
            seq![
                Event::Start,
                Event::Written(outcome),
                Event::Written(WriteOutcome::Written),
                Event::Ack(Incoming::Payload(Some(answer))),
            ],
        ) == (
            seq![
                ActionView::Write((if order_type == OrderType::Buy {
            ServerMessageView::SubmitBuyOrder { buy_order: order_size }
        } else {
            ServerMessageView::SubmitSellOrder { sell_order: order_size }
        })),
                ActionView::Write(ServerMessageView::RecoveryHandshake { symbol }),
                ActionView::ReadAck(None),
            ],
            Some(Err::<T, SessionError>(SessionError::ConnectionClosed)),
        ),
{
    let step = |p: SessionPhase, e: Event<T>|
        submit_order_spec::<T>(symbol, order_size, order_type, p, e);
    let evs = seq![
        Event::Start,
        Event::Written(WriteOutcome::Written),
        Event::Reply(Incoming::Close),
        Event::Written(WriteOutcome::Written),
        Event::Ack(Incoming::Payload(Some(answer))),
    ];
    let e4 = evs.drop_first().drop_first().drop_first().drop_first();
    let e3 = evs.drop_first().drop_first().drop_first();
    let e2 = evs.drop_first().drop_first();
    let e1 = evs.drop_first();
    assert(e4.drop_first().len() == 0);
    let r4 = session_run(step, SessionPhase::RecoverAck, e4);
    assert(r4 == (
        Seq::<ActionView>::empty(),
        Some(Err::<T, SessionError>(SessionError::ConnectionClosed)),
    ));
    let r3 = session_run(step, SessionPhase::RecoverWrite, e3);
    assert(r3 == (seq![ActionView::ReadAck(None)] + r4.0, r4.1));
    let r2 = session_run(step, SessionPhase::AwaitReply, e2);
    assert(r2 == (seq![ActionView::Write(ServerMessageView::RecoveryHandshake { symbol })] + r3.0, r3.1));
    let r1 = session_run(step, SessionPhase::AwaitWrite, e1);
    assert(r1 == (seq![ActionView::Read(None)] + r2.0, r2.1));
    let r0 = session_run(step, SessionPhase::Begin, evs);
    assert(r0 == (seq![ActionView::Write((if order_type == OrderType::Buy {
            ServerMessageView::SubmitBuyOrder { buy_order: order_size }
        } else {
            ServerMessageView::SubmitSellOrder { sell_order: order_size }
        }))] + r1.0, r1.1));
    assert(r0.0 =~= seq![
        ActionView::Write((if order_type == OrderType::Buy {
            ServerMessageView::SubmitBuyOrder { buy_order: order_size }
        } else {
            ServerMessageView::SubmitSellOrder { sell_order: order_size }
        })),
        ActionView::Read(None),
        ActionView::Write(ServerMessageView::RecoveryHandshake { symbol }),
        ActionView::ReadAck(None),
    ]);

    let fvs = seq![
        Event::Start,
        Event::Written(outcome),
        Event::Written(WriteOutcome::Written),
        Event::Ack(Incoming::Payload(Some(answer))),
    ];
    let f3 = fvs.drop_first().drop_first().drop_first();
    let f2 = fvs.drop_first().drop_first();
    let f1 = fvs.drop_first();
    assert(f3.drop_first().len() == 0);
    assert(f1[0] == Event::<T>::Written(outcome));
    let q3 = session_run(step, SessionPhase::RecoverAck, f3);
    assert(q3 == (
        Seq::<ActionView>::empty(),
        Some(Err::<T, SessionError>(SessionError::ConnectionClosed)),
    ));
    let q2 = session_run(step, SessionPhase::RecoverWrite, f2);
    assert(q2 == (seq![ActionView::ReadAck(None)] + q3.0, q3.1));
    let q1 = session_run(step, SessionPhase::AwaitWrite, f1);
    assert(q1 == (seq![ActionView::Write(ServerMessageView::RecoveryHandshake { symbol })] + q2.0, q2.1));
    let q0 = session_run(step, SessionPhase::Begin, fvs);
    assert(q0 == (seq![ActionView::Write((if order_type == OrderType::Buy {
            ServerMessageView::SubmitBuyOrder { buy_order: order_size }
        } else {
            ServerMessageView::SubmitSellOrder { sell_order: order_size }
        }))] + q1.0, q1.1));
    assert(q0.0 =~= seq![
        ActionView::Write((if order_type == OrderType::Buy {
            ServerMessageView::SubmitBuyOrder { buy_order: order_size }
        } else {
            ServerMessageView::SubmitSellOrder { sell_order: order_size }
        })),
        ActionView::Write(ServerMessageView::RecoveryHandshake { symbol }),
        ActionView::ReadAck(None),
    ]);
}

impl<R> Turn<R> {
    /// A turn that goes on, with the result type of another exchange.
    fn relabel<Q>(self) -> (t: Turn<Q>)
        requires
            self is Next,
        ensures
            self matches Turn::Next(p, a) ==> t@ == TurnView::<Q>::Next(p, a@),
    {
        match self {
            Turn::Next(p, a) => Turn::Next(p, a),
            Turn::Done(_) => vstd::pervasive::unreached(),
        }
    }
}

} // verus!
