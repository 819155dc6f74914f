use vstd::prelude::*;

use crate::client::{
    handshake_spec, recovery_spec, retrieve_ticker_spec, session_run, submit_order_spec,
    update_parameters_spec, ClientView, HandshakePhase, HandshakeTurnView,
};
use crate::errors::{SessionError, StateError, StateErrorVariant};
use crate::exchange::{fits, ActionView, Event, SessionPhase, TurnView, WriteOutcome};
use crate::frames::{ControlFrame, Incoming};
use crate::messages::{HandshakeAck, HandshakeStatus, OrderType, PositionType, ServerMessageView};

verus! {

/// The frame that a reading loop sends back for a frame that does not end
/// the read: a pong with the payload of a ping, nothing otherwise.
pub open spec fn answer<X>(f: Incoming<X>) -> Option<ControlFrame> {
    match f {
        Incoming::Ping(p) => Some(ControlFrame::Pong(p)),
        _ => None,
    }
}

/// A frame that a reading loop within a session reads past: a ping, a pong
/// or a transport error.
pub open spec fn skipped<X>(f: Incoming<X>) -> bool {
    f is Ping || f is Pong || f is Failed
}

/// A reading phase of an exchange that reads past every frame of `pre`,
/// answering each as `answer` says, and stops at `last`, takes one read per
/// frame and reaches the result that `last` gives, whatever follows.
proof fn lemma_read_run<T, R, X>(
    step: spec_fn(SessionPhase, Event<T>) -> TurnView<R>,
    phase: SessionPhase,
    wrap: spec_fn(Incoming<X>) -> Event<T>,
    read: spec_fn(Option<ControlFrame>) -> ActionView,
    pre: Seq<Incoming<X>>,
    last: Event<T>,
    tail: Seq<Event<T>>,
)
    requires
        forall|i: int|
            0 <= i < pre.len() ==> step(phase, wrap(#[trigger] pre[i])) == TurnView::<R>::Next(
                phase,
                read(answer(pre[i])),
            ),
        step(phase, last) is Done,
    ensures
        session_run(step, phase, pre.map_values(wrap) + seq![last] + tail) == (
            pre.map_values(|f: Incoming<X>| read(answer(f))),
            Some(step(phase, last)->Done_0),
        ),
    decreases pre.len(),
{
    let evs = pre.map_values(wrap) + seq![last] + tail;
    if pre.len() == 0 {
        assert(evs[0] == last);
        assert(pre.map_values(|f: Incoming<X>| read(answer(f))) =~= Seq::<ActionView>::empty());
    } else {
        let rest = pre.drop_first();
        assert(evs.drop_first() =~= rest.map_values(wrap) + seq![last] + tail);
        assert(evs[0] == wrap(pre[0]));
        assert forall|i: int| 0 <= i < rest.len() implies step(phase, wrap(#[trigger] rest[i]))
            == TurnView::<R>::Next(phase, read(answer(rest[i]))) by {
            assert(rest[i] == pre[i + 1]);
        }
        lemma_read_run(step, phase, wrap, read, rest, last, tail);
        assert(step(phase, wrap(pre[0])) == TurnView::<R>::Next(phase, read(answer(pre[0]))));
        assert(pre.map_values(|f: Incoming<X>| read(answer(f))) =~= seq![read(answer(pre[0]))]
            + rest.map_values(|f: Incoming<X>| read(answer(f))));
    }
}

// ---------------------------------------------------------------- tickers

/// While a ticker is awaited, a ping is answered with a pong that carries
/// its payload and a pong or a transport error is read past; neither ends
/// the read.
pub proof fn lemma_ticker_read_skips_control_frames<T>(symbol: Seq<char>, f: Incoming<Option<T>>)
    requires
        skipped(f),
    ensures
        f matches Incoming::Ping(p) ==> retrieve_ticker_spec(
            symbol,
            SessionPhase::AwaitReply,
            Event::Reply(f),
        ) == TurnView::<Result<Option<T>, StateError>>::Next(
            SessionPhase::AwaitReply,
            ActionView::Read(Some(ControlFrame::Pong(p))),
        ),
        !(f is Ping) ==> retrieve_ticker_spec(symbol, SessionPhase::AwaitReply, Event::Reply(f))
            == TurnView::<Result<Option<T>, StateError>>::Next(
            SessionPhase::AwaitReply,
            ActionView::Read(None),
        ),
{
}

/// A ticker published after any number of pings, pongs and transport errors
/// is delivered: each ping is answered in turn, and nothing after the ticker
/// is read.
pub proof fn lemma_ticker_delivered_after_control_frames<T>(
    symbol: Seq<char>,
    pre: Seq<Incoming<Option<T>>>,
    ticker: Option<T>,
    tail: Seq<Event<Option<T>>>,
)
    requires
        forall|i: int| 0 <= i < pre.len() ==> skipped(#[trigger] pre[i]),
    ensures
        session_run(
            |p: SessionPhase, e: Event<Option<T>>| retrieve_ticker_spec::<T>(symbol, p, e),
            SessionPhase::Begin,
            seq![Event::Start] + pre.map_values(|f: Incoming<Option<T>>| Event::Reply(f)) + seq![
                Event::Reply(Incoming::Payload(Some(ticker))),
            ] + tail,
        ) == (
            seq![ActionView::Read(None)] + pre.map_values(
                |f: Incoming<Option<T>>| ActionView::Read(answer(f)),
            ),
            Some(Ok::<Option<T>, StateError>(ticker)),
        ),
{
    let step = |p: SessionPhase, e: Event<Option<T>>| retrieve_ticker_spec::<T>(symbol, p, e);
    let wrap = |f: Incoming<Option<T>>| Event::Reply(f);
    let read = |a: Option<ControlFrame>| ActionView::Read(a);
    let last = Event::Reply(Incoming::Payload(Some(ticker)));
    assert forall|i: int| 0 <= i < pre.len() implies step(SessionPhase::AwaitReply, wrap(
        #[trigger] pre[i],
    )) == TurnView::<Result<Option<T>, StateError>>::Next(
        SessionPhase::AwaitReply,
        read(answer(pre[i])),
    ) by {
        lemma_ticker_read_skips_control_frames::<T>(symbol, pre[i]);
    }
    lemma_read_run(step, SessionPhase::AwaitReply, wrap, read, pre, last, tail);
    let after = pre.map_values(wrap) + seq![last] + tail;
    let evs = seq![Event::Start] + pre.map_values(wrap) + seq![last] + tail;
    assert(evs.drop_first() =~= after);
    assert(evs[0] == Event::<Option<T>>::Start);
    assert(pre.map_values(|f: Incoming<Option<T>>| read(answer(f))) =~= pre.map_values(
        |f: Incoming<Option<T>>| ActionView::Read(answer(f)),
    ));
}

/// While the acknowledgement of a recovery is awaited within a ticker read,
/// a ping is answered and a pong or a transport error read past; a closed
/// connection followed by the recovery and any such frames before a
/// successful acknowledgement yields no ticker.
pub proof fn lemma_ticker_recovery_skips_control_frames<T>(
    symbol: Seq<char>,
    pre: Seq<Incoming<HandshakeAck>>,
    ack: HandshakeAck,
    tail: Seq<Event<Option<T>>>,
)
    requires
        forall|i: int| 0 <= i < pre.len() ==> skipped(#[trigger] pre[i]),
        ack.status == HandshakeStatus::Success,
    ensures
        forall|p: Vec<u8>|
            retrieve_ticker_spec::<T>(symbol, SessionPhase::RecoverAck, Event::Ack(Incoming::Ping(p)))
                == TurnView::<Result<Option<T>, StateError>>::Next(
                SessionPhase::RecoverAck,
                ActionView::ReadAck(Some(ControlFrame::Pong(p))),
            ),
        session_run(
            |p: SessionPhase, e: Event<Option<T>>| retrieve_ticker_spec::<T>(symbol, p, e),
            SessionPhase::Begin,
            seq![
                Event::Start,
                Event::Reply(Incoming::Close),
                Event::Written(WriteOutcome::Written),
            ] + pre.map_values(|f: Incoming<HandshakeAck>| Event::Ack(f)) + seq![
                Event::Ack(Incoming::Payload(Some(ack))),
            ] + tail,
        ) == (
            seq![
                ActionView::Read(None),
                ActionView::Write(ServerMessageView::RecoveryHandshake { symbol }),
                ActionView::ReadAck(None),
            ] + pre.map_values(|f: Incoming<HandshakeAck>| ActionView::ReadAck(answer(f))),
            Some(Ok::<Option<T>, StateError>(None)),
        ),
{
    let step = |p: SessionPhase, e: Event<Option<T>>| retrieve_ticker_spec::<T>(symbol, p, e);
    let wrap = |f: Incoming<HandshakeAck>| Event::<Option<T>>::Ack(f);
    let read = |a: Option<ControlFrame>| ActionView::ReadAck(a);
    let last = Event::<Option<T>>::Ack(Incoming::Payload(Some(ack)));
    assert forall|i: int| 0 <= i < pre.len() implies step(SessionPhase::RecoverAck, wrap(
        #[trigger] pre[i],
    )) == TurnView::<Result<Option<T>, StateError>>::Next(
        SessionPhase::RecoverAck,
        read(answer(pre[i])),
    ) by {
        assert(skipped(pre[i]));
    }
    lemma_read_run(step, SessionPhase::RecoverAck, wrap, read, pre, last, tail);
    let after = pre.map_values(wrap) + seq![last] + tail;
    let evs = seq![
        Event::Start,
        Event::Reply(Incoming::Close),
        Event::Written(WriteOutcome::Written),
    ] + pre.map_values(wrap) + seq![last] + tail;
    let e1 = evs.drop_first();
    let e2 = e1.drop_first();
    let e3 = e2.drop_first();
    assert(e3 =~= after);
    assert(evs[0] == Event::<Option<T>>::Start);
    assert(e1[0] == Event::<Option<T>>::Reply(Incoming::Close));
    assert(e2[0] == Event::<Option<T>>::Written(WriteOutcome::Written));
    let r3 = session_run(step, SessionPhase::RecoverAck, e3);
    let r2 = session_run(step, SessionPhase::RecoverWrite, e2);
    assert(r2 == (seq![ActionView::ReadAck(None)] + r3.0, r3.1));
    let r1 = session_run(step, SessionPhase::AwaitReply, e1);
    assert(r1 == (
        seq![ActionView::Write(ServerMessageView::RecoveryHandshake { symbol })] + r2.0,
        r2.1,
    ));
    let r0 = session_run(step, SessionPhase::Begin, evs);
    assert(r0 == (seq![ActionView::Read(None)] + r1.0, r1.1));
    assert(r0.0 =~= seq![
        ActionView::Read(None),
        ActionView::Write(ServerMessageView::RecoveryHandshake { symbol }),
        ActionView::ReadAck(None),
    ] + pre.map_values(|f: Incoming<HandshakeAck>| ActionView::ReadAck(answer(f))));
}

// --------------------------------------------------------------- recovery

/// The recovery handshake writes the recovery message for the session's
/// own symbol, then reads the acknowledgement; pings, pongs and transport
/// errors before a successful acknowledgement are read past (each ping
/// answered in turn), and the session resumes.
pub proof fn lemma_recovery_succeeds_after_control_frames<T>(
    symbol: Seq<char>,
    pre: Seq<Incoming<HandshakeAck>>,
    ack: HandshakeAck,
    tail: Seq<Event<T>>,
)
    requires
        forall|i: int| 0 <= i < pre.len() ==> skipped(#[trigger] pre[i]),
        ack.status == HandshakeStatus::Success,
    ensures
        forall|p: Vec<u8>|
            recovery_spec::<T>(symbol, SessionPhase::RecoverAck, Event::Ack(Incoming::Ping(p)))
                == TurnView::<Result<(), StateError>>::Next(
                SessionPhase::RecoverAck,
                ActionView::ReadAck(Some(ControlFrame::Pong(p))),
            ),
        session_run(
            |p: SessionPhase, e: Event<T>| recovery_spec::<T>(symbol, p, e),
            SessionPhase::Begin,
            seq![Event::Start, Event::Written(WriteOutcome::Written)] + pre.map_values(
                |f: Incoming<HandshakeAck>| Event::Ack(f),
            ) + seq![Event::Ack(Incoming::Payload(Some(ack)))] + tail,
        ) == (
            seq![
                ActionView::Write(ServerMessageView::RecoveryHandshake { symbol }),
                ActionView::ReadAck(None),
            ] + pre.map_values(|f: Incoming<HandshakeAck>| ActionView::ReadAck(answer(f))),
            Some(Ok::<(), StateError>(())),
        ),
{
    let step = |p: SessionPhase, e: Event<T>| recovery_spec::<T>(symbol, p, e);
    let wrap = |f: Incoming<HandshakeAck>| Event::<T>::Ack(f);
    let read = |a: Option<ControlFrame>| ActionView::ReadAck(a);
    let last = Event::<T>::Ack(Incoming::Payload(Some(ack)));
    assert forall|i: int| 0 <= i < pre.len() implies step(SessionPhase::RecoverAck, wrap(
        #[trigger] pre[i],
    )) == TurnView::<Result<(), StateError>>::Next(
        SessionPhase::RecoverAck,
        read(answer(pre[i])),
    ) by {
        assert(skipped(pre[i]));
    }
    lemma_read_run(step, SessionPhase::RecoverAck, wrap, read, pre, last, tail);
    let after = pre.map_values(wrap) + seq![last] + tail;
    let evs = seq![Event::Start, Event::Written(WriteOutcome::Written)] + pre.map_values(wrap)
        + seq![last] + tail;
    let e1 = evs.drop_first();
    let e2 = e1.drop_first();
    assert(e2 =~= after);
    assert(evs[0] == Event::<T>::Start);
    assert(e1[0] == Event::<T>::Written(WriteOutcome::Written));
    let r2 = session_run(step, SessionPhase::RecoverAck, e2);
    let r1 = session_run(step, SessionPhase::RecoverWrite, e1);
    assert(r1 == (seq![ActionView::ReadAck(None)] + r2.0, r2.1));
    let r0 = session_run(step, SessionPhase::Begin, evs);
    assert(r0 == (
        seq![ActionView::Write(ServerMessageView::RecoveryHandshake { symbol })] + r1.0,
        r1.1,
    ));
    assert(r0.0 =~= seq![
        ActionView::Write(ServerMessageView::RecoveryHandshake { symbol }),
        ActionView::ReadAck(None),
    ] + pre.map_values(|f: Incoming<HandshakeAck>| ActionView::ReadAck(answer(f))));
}

// ----------------------------------------------------------------- orders

/// An order starts by writing a message that carries the size asked for,
/// bit for bit, in the direction asked for.
pub proof fn lemma_order_message_carries_size<T>(symbol: Seq<char>, order_size: u32)
    ensures
        submit_order_spec::<T>(symbol, order_size, OrderType::Buy, SessionPhase::Begin, Event::Start)
            == TurnView::<Result<T, SessionError>>::Next(
            SessionPhase::AwaitWrite,
            ActionView::Write(ServerMessageView::SubmitBuyOrder { buy_order: order_size }),
        ),
        submit_order_spec::<T>(
            symbol,
            order_size,
            OrderType::Sell,
            SessionPhase::Begin,
            Event::Start,
        ) == TurnView::<Result<T, SessionError>>::Next(
            SessionPhase::AwaitWrite,
            ActionView::Write(ServerMessageView::SubmitSellOrder { sell_order: order_size }),
        ),
{
}

/// While an order's acknowledgement is awaited, a ping is answered with a
/// pong that carries its payload and a pong or a transport error is read
/// past; neither ends the order.
pub proof fn lemma_order_skips_control_frames<T>(
    symbol: Seq<char>,
    order_size: u32,
    order_type: OrderType,
    f: Incoming<T>,
)
    requires
        skipped(f),
    ensures
        f matches Incoming::Ping(p) ==> submit_order_spec(
            symbol,
            order_size,
            order_type,
            SessionPhase::AwaitReply,
            Event::Reply(f),
        ) == TurnView::<Result<T, SessionError>>::Next(
            SessionPhase::AwaitReply,
            ActionView::Read(Some(ControlFrame::Pong(p))),
        ),
        !(f is Ping) ==> submit_order_spec(
            symbol,
            order_size,
            order_type,
            SessionPhase::AwaitReply,
            Event::Reply(f),
        ) == TurnView::<Result<T, SessionError>>::Next(
            SessionPhase::AwaitReply,
            ActionView::Read(None),
        ),
{
}

/// An order that is written and acknowledged after any number of pings,
/// pongs and transport errors has the broker's acknowledgement as its
/// result: the order's message carries the size asked for, each ping is
/// answered in turn, and nothing after the acknowledgement is read.
pub proof fn lemma_order_acknowledged_after_control_frames<T>(
    symbol: Seq<char>,
    order_size: u32,
    order_type: OrderType,
    pre: Seq<Incoming<T>>,
    ack: T,
    tail: Seq<Event<T>>,
)
    requires
        forall|i: int| 0 <= i < pre.len() ==> skipped(#[trigger] pre[i]),
    ensures
        session_run(
            |p: SessionPhase, e: Event<T>|
                submit_order_spec::<T>(symbol, order_size, order_type, p, e),
            SessionPhase::Begin,
            seq![Event::Start, Event::Written(WriteOutcome::Written)] + pre.map_values(
                |f: Incoming<T>| Event::Reply(f),
            ) + seq![Event::Reply(Incoming::Payload(Some(ack)))] + tail,
        ) == (
            seq![
                ActionView::Write(
                    if order_type == OrderType::Buy {
                        ServerMessageView::SubmitBuyOrder { buy_order: order_size }
                    } else {
                        ServerMessageView::SubmitSellOrder { sell_order: order_size }
                    },
                ),
                ActionView::Read(None),
            ] + pre.map_values(|f: Incoming<T>| ActionView::Read(answer(f))),
            Some(Ok::<T, SessionError>(ack)),
        ),
{
    let step = |p: SessionPhase, e: Event<T>|
        submit_order_spec::<T>(symbol, order_size, order_type, p, e);
    let wrap = |f: Incoming<T>| Event::Reply(f);
    let read = |a: Option<ControlFrame>| ActionView::Read(a);
    let last = Event::Reply(Incoming::Payload(Some(ack)));
    assert forall|i: int| 0 <= i < pre.len() implies step(SessionPhase::AwaitReply, wrap(
        #[trigger] pre[i],
    )) == TurnView::<Result<T, SessionError>>::Next(
        SessionPhase::AwaitReply,
        read(answer(pre[i])),
    ) by {
        lemma_order_skips_control_frames::<T>(symbol, order_size, order_type, pre[i]);
    }
    lemma_read_run(step, SessionPhase::AwaitReply, wrap, read, pre, last, tail);
    let after = pre.map_values(wrap) + seq![last] + tail;
    let evs = seq![Event::Start, Event::Written(WriteOutcome::Written)] + pre.map_values(wrap)
        + seq![last] + tail;
    let e1 = evs.drop_first();
    let e2 = e1.drop_first();
    assert(e2 =~= after);
    assert(evs[0] == Event::<T>::Start);
    assert(e1[0] == Event::<T>::Written(WriteOutcome::Written));
    let r2 = session_run(step, SessionPhase::AwaitReply, e2);
    let r1 = session_run(step, SessionPhase::AwaitWrite, e1);
    assert(r1 == (seq![ActionView::Read(None)] + r2.0, r2.1));
    let r0 = session_run(step, SessionPhase::Begin, evs);
    lemma_order_message_carries_size::<T>(symbol, order_size);
    assert(r0.0 =~= seq![
        ActionView::Write(
            if order_type == OrderType::Buy {
                ServerMessageView::SubmitBuyOrder { buy_order: order_size }
            } else {
                ServerMessageView::SubmitSellOrder { sell_order: order_size }
            },
        ),
        ActionView::Read(None),
    ] + pre.map_values(|f: Incoming<T>| ActionView::Read(answer(f))));
}

// ------------------------------------------------------------- parameters

/// A parameter update starts by writing the subscription with the cadence
/// and window asked for, when the cadence fits the message.
pub proof fn lemma_update_message_carries_parameters<T>(cadence: usize, window: u16)
    requires
        cadence <= u16::MAX,
    ensures
        update_parameters_spec::<T>(cadence, window, SessionPhase::Begin, Event::Start)
            == TurnView::<Result<(), SessionError>>::Next(
            SessionPhase::AwaitWrite,
            ActionView::Write(
                ServerMessageView::Subscribe { publish_cadence: cadence as u16, window },
            ),
        ),
{
}

/// A parameter update succeeds only on an answer of the broker: no other
/// phase or event gives `Ok`.
pub proof fn lemma_update_acknowledged_only_by_answer<T>(
    cadence: usize,
    window: u16,
    phase: SessionPhase,
    ev: Event<T>,
)
    requires
        fits(phase, ev),
        phase is Begin || phase is AwaitWrite || phase is AwaitReply,
        update_parameters_spec(cadence, window, phase, ev) == TurnView::<
            Result<(), SessionError>,
        >::Done(Ok(())),
    ensures
        phase == SessionPhase::AwaitReply,
        ev matches Event::Reply(Incoming::Payload(Some(_))),
{
}

/// While the answer to an update is awaited, a ping is answered with a pong
/// that carries its payload and a pong or a transport error is read past;
/// neither ends the update.
pub proof fn lemma_update_skips_control_frames<T>(cadence: usize, window: u16, f: Incoming<T>)
    requires
        skipped(f),
    ensures
        f matches Incoming::Ping(p) ==> update_parameters_spec(
            cadence,
            window,
            SessionPhase::AwaitReply,
            Event::Reply(f),
        ) == TurnView::<Result<(), SessionError>>::Next(
            SessionPhase::AwaitReply,
            ActionView::Read(Some(ControlFrame::Pong(p))),
        ),
        !(f is Ping) ==> update_parameters_spec(
            cadence,
            window,
            SessionPhase::AwaitReply,
            Event::Reply(f),
        ) == TurnView::<Result<(), SessionError>>::Next(
            SessionPhase::AwaitReply,
            ActionView::Read(None),
        ),
{
}

/// An update that is written and answered after any number of pings, pongs
/// and transport errors is acknowledged: the subscription carries the
/// parameters asked for, each ping is answered in turn, and nothing after
/// the answer is read.
pub proof fn lemma_update_acknowledged_after_control_frames<T>(
    cadence: usize,
    window: u16,
    pre: Seq<Incoming<T>>,
    reply: T,
    tail: Seq<Event<T>>,
)
    requires
        cadence <= u16::MAX,
        forall|i: int| 0 <= i < pre.len() ==> skipped(#[trigger] pre[i]),
    ensures
        session_run(
            |p: SessionPhase, e: Event<T>| update_parameters_spec::<T>(cadence, window, p, e),
            SessionPhase::Begin,
            seq![Event::Start, Event::Written(WriteOutcome::Written)] + pre.map_values(
                |f: Incoming<T>| Event::Reply(f),
            ) + seq![Event::Reply(Incoming::Payload(Some(reply)))] + tail,
        ) == (
            seq![
                ActionView::Write(
                    ServerMessageView::Subscribe { publish_cadence: cadence as u16, window },
                ),
                ActionView::Read(None),
            ] + pre.map_values(|f: Incoming<T>| ActionView::Read(answer(f))),
            Some(Ok::<(), SessionError>(())),
        ),
{
    let step = |p: SessionPhase, e: Event<T>| update_parameters_spec::<T>(cadence, window, p, e);
    let wrap = |f: Incoming<T>| Event::Reply(f);
    let read = |a: Option<ControlFrame>| ActionView::Read(a);
    let last = Event::Reply(Incoming::Payload(Some(reply)));
    assert forall|i: int| 0 <= i < pre.len() implies step(SessionPhase::AwaitReply, wrap(
        #[trigger] pre[i],
    )) == TurnView::<Result<(), SessionError>>::Next(
        SessionPhase::AwaitReply,
        read(answer(pre[i])),
    ) by {
        lemma_update_skips_control_frames::<T>(cadence, window, pre[i]);
    }
    lemma_read_run(step, SessionPhase::AwaitReply, wrap, read, pre, last, tail);
    let after = pre.map_values(wrap) + seq![last] + tail;
    let evs = seq![Event::Start, Event::Written(WriteOutcome::Written)] + pre.map_values(wrap)
        + seq![last] + tail;
    let e1 = evs.drop_first();
    let e2 = e1.drop_first();
    assert(e2 =~= after);
    assert(evs[0] == Event::<T>::Start);
    assert(e1[0] == Event::<T>::Written(WriteOutcome::Written));
    let r2 = session_run(step, SessionPhase::AwaitReply, e2);
    let r1 = session_run(step, SessionPhase::AwaitWrite, e1);
    assert(r1 == (seq![ActionView::Read(None)] + r2.0, r2.1));
    let r0 = session_run(step, SessionPhase::Begin, evs);
    assert(r0.0 =~= seq![
        ActionView::Write(ServerMessageView::Subscribe { publish_cadence: cadence as u16, window }),
        ActionView::Read(None),
    ] + pre.map_values(|f: Incoming<T>| ActionView::Read(answer(f))));
}

// ------------------------------------------------------- decisive frames

/// How the opening handshake ends: it writes the handshake message for the
/// client's symbol, with the default cadence and the position asked for; a
/// failed write hands the client back; a successful acknowledgement starts
/// the session with the client unchanged; a refused or unreadable
/// acknowledgement, a closed connection, a raw frame, a transport error or
/// the end of the stream hands the client back unchanged.
pub proof fn lemma_handshake_outcomes(c: ClientView, pt: PositionType, outcome: WriteOutcome)
    ensures
        handshake_spec(c, pt, HandshakePhase::Begin, Event::Start) == HandshakeTurnView::Next(
            c,
            HandshakePhase::AwaitWrite,
            ActionView::Write(
                ServerMessageView::SessionHandshake {
                    symbol: c.symbol,
                    publish_cadence: 5,
                    position_type: pt,
                },
            ),
        ),
        outcome == WriteOutcome::Written ==> handshake_spec(
            c,
            pt,
            HandshakePhase::AwaitWrite,
            Event::Written(outcome),
        ) == HandshakeTurnView::Next(c, HandshakePhase::AwaitAck, ActionView::Read(None)),
        outcome != WriteOutcome::Written ==> handshake_spec(
            c,
            pt,
            HandshakePhase::AwaitWrite,
            Event::Written(outcome),
        ) == HandshakeTurnView::Done(Err(c)),
        handshake_spec(
            c,
            pt,
            HandshakePhase::AwaitAck,
            Event::Reply(Incoming::Payload(Some(HandshakeAck { status: HandshakeStatus::Success }))),
        ) == HandshakeTurnView::Done(Ok(c)),
        handshake_spec(
            c,
            pt,
            HandshakePhase::AwaitAck,
            Event::Reply(Incoming::Payload(Some(HandshakeAck { status: HandshakeStatus::Failure }))),
        ) == HandshakeTurnView::Done(Err(c)),
        handshake_spec(c, pt, HandshakePhase::AwaitAck, Event::Reply(Incoming::Payload(None)))
            == HandshakeTurnView::Done(Err(c)),
        handshake_spec(c, pt, HandshakePhase::AwaitAck, Event::Reply(Incoming::Close))
            == HandshakeTurnView::Done(Err(c)),
        handshake_spec(c, pt, HandshakePhase::AwaitAck, Event::Reply(Incoming::RawFrame))
            == HandshakeTurnView::Done(Err(c)),
        handshake_spec(c, pt, HandshakePhase::AwaitAck, Event::Reply(Incoming::Failed))
            == HandshakeTurnView::Done(Err(c)),
        handshake_spec(c, pt, HandshakePhase::AwaitAck, Event::Reply(Incoming::Ended))
            == HandshakeTurnView::Done(Err(c)),
        handshake_spec(c, pt, HandshakePhase::AwaitAck, Event::Reply(Incoming::Pong))
            == HandshakeTurnView::Next(c, HandshakePhase::AwaitAck, ActionView::Read(None)),
        forall|p: Vec<u8>|
            handshake_spec(c, pt, HandshakePhase::AwaitAck, Event::Reply(Incoming::Ping(p)))
                == HandshakeTurnView::Next(
                c,
                HandshakePhase::AwaitAck,
                ActionView::Read(Some(ControlFrame::Pong(p))),
            ),
{
}

/// How a ticker read ends: it starts by reading; a ticker message is
/// delivered as read; an unreadable message or a raw frame is an invalid
/// message; a closed connection or the end of the stream leads to the
/// recovery message for the session's symbol. After the recovery message, a
/// failed write means the connection is closed, a successful acknowledgement
/// yields no ticker, a refusal means the recovery failed, and any other end
/// of the read is an invalid message.
pub proof fn lemma_ticker_outcomes<T>(symbol: Seq<char>, outcome: WriteOutcome)
    ensures
        retrieve_ticker_spec::<T>(symbol, SessionPhase::Begin, Event::Start) == TurnView::<
            Result<Option<T>, StateError>,
        >::Next(SessionPhase::AwaitReply, ActionView::Read(None)),
        forall|t: Option<T>|
            retrieve_ticker_spec::<T>(
                symbol,
                SessionPhase::AwaitReply,
                Event::Reply(Incoming::Payload(Some(t))),
            ) == TurnView::<Result<Option<T>, StateError>>::Done(Ok(t)),
        retrieve_ticker_spec::<T>(
            symbol,
            SessionPhase::AwaitReply,
            Event::Reply(Incoming::Payload(None)),
        ) == TurnView::<Result<Option<T>, StateError>>::Done(
            Err(StateError { error: StateErrorVariant::InvalidMessage }),
        ),
        retrieve_ticker_spec::<T>(symbol, SessionPhase::AwaitReply, Event::Reply(Incoming::RawFrame))
            == TurnView::<Result<Option<T>, StateError>>::Done(
            Err(StateError { error: StateErrorVariant::InvalidMessage }),
        ),
        retrieve_ticker_spec::<T>(symbol, SessionPhase::AwaitReply, Event::Reply(Incoming::Close))
            == TurnView::<Result<Option<T>, StateError>>::Next(
            SessionPhase::RecoverWrite,
            ActionView::Write(ServerMessageView::RecoveryHandshake { symbol }),
        ),
        retrieve_ticker_spec::<T>(symbol, SessionPhase::AwaitReply, Event::Reply(Incoming::Ended))
            == TurnView::<Result<Option<T>, StateError>>::Next(
            SessionPhase::RecoverWrite,
            ActionView::Write(ServerMessageView::RecoveryHandshake { symbol }),
        ),
        outcome == WriteOutcome::Written ==> retrieve_ticker_spec::<T>(
            symbol,
            SessionPhase::RecoverWrite,
            Event::Written(outcome),
        ) == TurnView::<Result<Option<T>, StateError>>::Next(
            SessionPhase::RecoverAck,
            ActionView::ReadAck(None),
        ),
        outcome != WriteOutcome::Written ==> retrieve_ticker_spec::<T>(
            symbol,
            SessionPhase::RecoverWrite,
            Event::Written(outcome),
        ) == TurnView::<Result<Option<T>, StateError>>::Done(
            Err(StateError { error: StateErrorVariant::ConnectionClosed }),
        ),
        retrieve_ticker_spec::<T>(
            symbol,
            SessionPhase::RecoverAck,
            Event::Ack(Incoming::Payload(Some(HandshakeAck { status: HandshakeStatus::Success }))),
        ) == TurnView::<Result<Option<T>, StateError>>::Done(Ok(None)),
        retrieve_ticker_spec::<T>(
            symbol,
            SessionPhase::RecoverAck,
            Event::Ack(Incoming::Payload(Some(HandshakeAck { status: HandshakeStatus::Failure }))),
        ) == TurnView::<Result<Option<T>, StateError>>::Done(
            Err(StateError { error: StateErrorVariant::UnsuccessfulHandshake }),
        ),
        retrieve_ticker_spec::<T>(symbol, SessionPhase::RecoverAck, Event::Ack(Incoming::Close))
            == TurnView::<Result<Option<T>, StateError>>::Done(
            Err(StateError { error: StateErrorVariant::InvalidMessage }),
        ),
{
}

/// How the recovery handshake ends: it writes the recovery message for the
/// session's symbol; a failed write means the connection is closed; a
/// successful acknowledgement resumes the session, a refusal means the
/// recovery failed, and an unreadable acknowledgement, a raw frame, a closed
/// connection or the end of the stream is an invalid message.
pub proof fn lemma_recovery_outcomes<T>(symbol: Seq<char>, outcome: WriteOutcome)
    ensures
        recovery_spec::<T>(symbol, SessionPhase::Begin, Event::Start) == TurnView::<
            Result<(), StateError>,
        >::Next(
            SessionPhase::RecoverWrite,
            ActionView::Write(ServerMessageView::RecoveryHandshake { symbol }),
        ),
        outcome == WriteOutcome::Written ==> recovery_spec::<T>(
            symbol,
            SessionPhase::RecoverWrite,
            Event::Written(outcome),
        ) == TurnView::<Result<(), StateError>>::Next(
            SessionPhase::RecoverAck,
            ActionView::ReadAck(None),
        ),
        outcome != WriteOutcome::Written ==> recovery_spec::<T>(
            symbol,
            SessionPhase::RecoverWrite,
            Event::Written(outcome),
        ) == TurnView::<Result<(), StateError>>::Done(
            Err(StateError { error: StateErrorVariant::ConnectionClosed }),
        ),
        recovery_spec::<T>(
            symbol,
            SessionPhase::RecoverAck,
            Event::Ack(Incoming::Payload(Some(HandshakeAck { status: HandshakeStatus::Success }))),
        ) == TurnView::<Result<(), StateError>>::Done(Ok(())),
        recovery_spec::<T>(
            symbol,
            SessionPhase::RecoverAck,
            Event::Ack(Incoming::Payload(Some(HandshakeAck { status: HandshakeStatus::Failure }))),
        ) == TurnView::<Result<(), StateError>>::Done(
            Err(StateError { error: StateErrorVariant::UnsuccessfulHandshake }),
        ),
        recovery_spec::<T>(symbol, SessionPhase::RecoverAck, Event::Ack(Incoming::Payload(None)))
            == TurnView::<Result<(), StateError>>::Done(
            Err(StateError { error: StateErrorVariant::InvalidMessage }),
        ),
        recovery_spec::<T>(symbol, SessionPhase::RecoverAck, Event::Ack(Incoming::RawFrame))
            == TurnView::<Result<(), StateError>>::Done(
            Err(StateError { error: StateErrorVariant::InvalidMessage }),
        ),
        recovery_spec::<T>(symbol, SessionPhase::RecoverAck, Event::Ack(Incoming::Close))
            == TurnView::<Result<(), StateError>>::Done(
            Err(StateError { error: StateErrorVariant::InvalidMessage }),
        ),
        recovery_spec::<T>(symbol, SessionPhase::RecoverAck, Event::Ack(Incoming::Ended))
            == TurnView::<Result<(), StateError>>::Done(
            Err(StateError { error: StateErrorVariant::InvalidMessage }),
        ),
        recovery_spec::<T>(symbol, SessionPhase::RecoverAck, Event::Ack(Incoming::Pong))
            == TurnView::<Result<(), StateError>>::Next(
            SessionPhase::RecoverAck,
            ActionView::ReadAck(None),
        ),
        recovery_spec::<T>(symbol, SessionPhase::RecoverAck, Event::Ack(Incoming::Failed))
            == TurnView::<Result<(), StateError>>::Next(
            SessionPhase::RecoverAck,
            ActionView::ReadAck(None),
        ),
{
}

/// How an order ends: once written it awaits the answer; a failed write, a
/// closed connection or the end of the stream leads to the recovery message
/// for the session's symbol; an unreadable answer means no acknowledgement
/// came, and a raw frame is an invalid message. Whatever the recovery
/// gives, an order that led to it fails with the closed connection.
pub proof fn lemma_order_outcomes<T>(
    symbol: Seq<char>,
    order_size: u32,
    order_type: OrderType,
    outcome: WriteOutcome,
    ev: Event<T>,
)
    ensures
        outcome == WriteOutcome::Written ==> submit_order_spec::<T>(
            symbol,
            order_size,
            order_type,
            SessionPhase::AwaitWrite,
            Event::Written(outcome),
        ) == TurnView::<Result<T, SessionError>>::Next(
            SessionPhase::AwaitReply,
            ActionView::Read(None),
        ),
        outcome != WriteOutcome::Written ==> submit_order_spec::<T>(
            symbol,
            order_size,
            order_type,
            SessionPhase::AwaitWrite,
            Event::Written(outcome),
        ) == TurnView::<Result<T, SessionError>>::Next(
            SessionPhase::RecoverWrite,
            ActionView::Write(ServerMessageView::RecoveryHandshake { symbol }),
        ),
        submit_order_spec::<T>(
            symbol,
            order_size,
            order_type,
            SessionPhase::AwaitReply,
            Event::Reply(Incoming::Close),
        ) == TurnView::<Result<T, SessionError>>::Next(
            SessionPhase::RecoverWrite,
            ActionView::Write(ServerMessageView::RecoveryHandshake { symbol }),
        ),
        submit_order_spec::<T>(
            symbol,
            order_size,
            order_type,
            SessionPhase::AwaitReply,
            Event::Reply(Incoming::Ended),
        ) == TurnView::<Result<T, SessionError>>::Next(
            SessionPhase::RecoverWrite,
            ActionView::Write(ServerMessageView::RecoveryHandshake { symbol }),
        ),
        forall|a: T|
            submit_order_spec::<T>(
                symbol,
                order_size,
                order_type,
                SessionPhase::AwaitReply,
                Event::Reply(Incoming::Payload(Some(a))),
            ) == TurnView::<Result<T, SessionError>>::Done(Ok(a)),
        submit_order_spec::<T>(
            symbol,
            order_size,
            order_type,
            SessionPhase::AwaitReply,
            Event::Reply(Incoming::Payload(None)),
        ) == TurnView::<Result<T, SessionError>>::Done(Err(SessionError::NoAvailableTicker)),
        submit_order_spec::<T>(
            symbol,
            order_size,
            order_type,
            SessionPhase::AwaitReply,
            Event::Reply(Incoming::RawFrame),
        ) == TurnView::<Result<T, SessionError>>::Done(Err(SessionError::InvalidMessage)),
        (ev is Written || ev is Ack) ==> (submit_order_spec::<T>(
            symbol,
            order_size,
            order_type,
            if ev is Written {
                SessionPhase::RecoverWrite
            } else {
                SessionPhase::RecoverAck
            },
            ev,
        ) matches TurnView::Done(r) ==> r == Err::<T, SessionError>(SessionError::ConnectionClosed)),
{
}

/// How a parameter update ends: a cadence that the message cannot carry is
/// an invalid message and nothing is written; a failed write, a closed
/// connection or the end of the stream means the connection is closed; an
/// unreadable answer means no acknowledgement came, and a raw frame is an
/// invalid message.
pub proof fn lemma_update_outcomes<T>(cadence: usize, window: u16, outcome: WriteOutcome)
    ensures
        cadence > u16::MAX ==> update_parameters_spec::<T>(
            cadence,
            window,
            SessionPhase::Begin,
            Event::Start,
        ) == TurnView::<Result<(), SessionError>>::Done(Err(SessionError::InvalidMessage)),
        outcome == WriteOutcome::Written ==> update_parameters_spec::<T>(
            cadence,
            window,
            SessionPhase::AwaitWrite,
            Event::Written(outcome),
        ) == TurnView::<Result<(), SessionError>>::Next(
            SessionPhase::AwaitReply,
            ActionView::Read(None),
        ),
        outcome != WriteOutcome::Written ==> update_parameters_spec::<T>(
            cadence,
            window,
            SessionPhase::AwaitWrite,
            Event::Written(outcome),
        ) == TurnView::<Result<(), SessionError>>::Done(Err(SessionError::ConnectionClosed)),
        update_parameters_spec::<T>(
            cadence,
            window,
            SessionPhase::AwaitReply,
            Event::Reply(Incoming::Close),
        ) == TurnView::<Result<(), SessionError>>::Done(Err(SessionError::ConnectionClosed)),
        update_parameters_spec::<T>(
            cadence,
            window,
            SessionPhase::AwaitReply,
            Event::Reply(Incoming::Ended),
        ) == TurnView::<Result<(), SessionError>>::Done(Err(SessionError::ConnectionClosed)),
        update_parameters_spec::<T>(
            cadence,
            window,
            SessionPhase::AwaitReply,
            Event::Reply(Incoming::Payload(None)),
        ) == TurnView::<Result<(), SessionError>>::Done(Err(SessionError::NoAvailableTicker)),
        update_parameters_spec::<T>(
            cadence,
            window,
            SessionPhase::AwaitReply,
            Event::Reply(Incoming::RawFrame),
        ) == TurnView::<Result<(), SessionError>>::Done(Err(SessionError::InvalidMessage)),
{
}

} // verus!
