use broker_client::client::{
    HandshakePhase, HandshakeTurn, IntraSession, MessageBrokerClient, PreHandshake,
    DEFAULT_CADENCE,
};
use broker_client::errors::{SessionError, StateError, StateErrorVariant};
use broker_client::exchange::{Action, Event, SessionPhase, Turn, WriteOutcome};
use broker_client::frames::{ControlFrame, Incoming};
use broker_client::messages::{
    HandshakeAck, HandshakeStatus, OrderType, PositionType, ServerMessage, SubParameters,
};

const SUCCESS: HandshakeAck = HandshakeAck { status: HandshakeStatus::Success };
const FAILURE: HandshakeAck = HandshakeAck { status: HandshakeStatus::Failure };

fn fresh(symbol: &str) -> MessageBrokerClient<PreHandshake> {
    MessageBrokerClient::new(symbol.to_string(), "ws://localhost", 8080, None).0
}

/// Drives the handshake with the given events after the start, and returns
/// the actions taken and the outcome, if one was reached.
fn run_handshake(
    client: MessageBrokerClient<PreHandshake>,
    pt: PositionType,
    events: Vec<Event<HandshakeAck>>,
) -> (
    Vec<Action>,
    Option<Result<MessageBrokerClient<IntraSession>, MessageBrokerClient<PreHandshake>>>,
) {
    let mut actions = Vec::new();
    let mut client = client;
    let mut phase = HandshakePhase::Begin;
    let mut pending = vec![Event::Start];
    pending.extend(events);
    for event in pending {
        match client.handshake(pt, phase, event) {
            HandshakeTurn::Done(r) => return (actions, Some(r)),
            HandshakeTurn::Next(c, p, a) => {
                client = c;
                phase = p;
                actions.push(a);
            }
        }
    }
    (actions, None)
}

/// Drives an exchange within a session with the given events after the
/// start, and returns the actions taken and the result, if one was reached.
fn run_session<T, R>(
    mut step: impl FnMut(SessionPhase, Event<T>) -> Turn<R>,
    events: Vec<Event<T>>,
) -> (Vec<Action>, Option<R>) {
    let mut actions = Vec::new();
    let mut phase = SessionPhase::Begin;
    let mut pending = vec![Event::Start];
    pending.extend(events);
    for event in pending {
        match step(phase, event) {
            Turn::Done(r) => return (actions, Some(r)),
            Turn::Next(p, a) => {
                phase = p;
                actions.push(a);
            }
        }
    }
    (actions, None)
}

fn started(symbol: &str) -> MessageBrokerClient<IntraSession> {
    let (_, outcome) = run_handshake(
        fresh(symbol),
        PositionType::Long,
        vec![
            Event::Written(WriteOutcome::Written),
            Event::Reply(Incoming::Payload(Some(SUCCESS))),
        ],
    );
    match outcome {
        Some(Ok(c)) => c,
        _ => panic!("an acknowledged handshake starts the session"),
    }
}

fn recovery(symbol: &str) -> Action {
    Action::Write(ServerMessage::RecoveryHandshake { symbol: symbol.to_string() })
}

#[test]
fn new_client_and_address() {
    let (client, address) =
        MessageBrokerClient::new("AB".to_string(), "ws://localhost", 8080, Some("base"));
    assert_eq!(address, "ws://localhost:8080/base");
    assert_eq!(client.symbol(), "AB");
    assert_eq!(client.pub_cadence(), 5);
    assert_eq!(DEFAULT_CADENCE, 5);
    let (_, address) = MessageBrokerClient::new("AB".to_string(), "ws://localhost", 8080, None);
    assert_eq!(address, "ws://localhost:8080");
}

#[test]
fn handshake_sends_message_then_reads_ack() {
    let (actions, outcome) = run_handshake(
        fresh("AB"),
        PositionType::Long,
        vec![
            Event::Written(WriteOutcome::Written),
            Event::Reply(Incoming::Ping(vec![4])),
            Event::Reply(Incoming::Pong),
            Event::Reply(Incoming::Payload(Some(SUCCESS))),
        ],
    );
    assert_eq!(
        actions,
        vec![
            Action::Write(ServerMessage::SessionHandshake {
                symbol: "AB".to_string(),
                publish_cadence: 5,
                position_type: PositionType::Long,
            }),
            Action::Read(None),
            Action::Read(Some(ControlFrame::Pong(vec![4]))),
            Action::Read(None),
        ]
    );
    match outcome {
        Some(Ok(c)) => {
            assert_eq!(c.symbol(), "AB");
            assert_eq!(c.pub_cadence(), 5);
        }
        _ => panic!("an acknowledged handshake starts the session"),
    }
}

#[test]
fn handshake_failure_ack_hands_client_back() {
    let (actions, outcome) = run_handshake(
        fresh("AB"),
        PositionType::Short,
        vec![
            Event::Written(WriteOutcome::Written),
            Event::Reply(Incoming::Payload(Some(FAILURE))),
        ],
    );
    assert_eq!(
        actions[0],
        Action::Write(ServerMessage::SessionHandshake {
            symbol: "AB".to_string(),
            publish_cadence: 5,
            position_type: PositionType::Short,
        })
    );
    match outcome {
        Some(Err(c)) => {
            assert_eq!(c.symbol(), "AB");
            assert_eq!(c.pub_cadence(), 5);
        }
        _ => panic!("a refused handshake hands the client back"),
    }
}

#[test]
fn handshake_failed_write_reads_nothing() {
    for outcome in [WriteOutcome::EncodingFailed, WriteOutcome::TransportFailed] {
        let (actions, result) = run_handshake(
            fresh("AB"),
            PositionType::Long,
            vec![Event::Written(outcome), Event::Reply(Incoming::Payload(Some(SUCCESS)))],
        );
        assert_eq!(actions.len(), 1);
        assert!(matches!(result, Some(Err(_))));
    }
}

#[test]
fn handshake_closed_connection_hands_client_back() {
    let (_, result) = run_handshake(
        fresh("AB"),
        PositionType::Long,
        vec![Event::Written(WriteOutcome::Written), Event::Reply(Incoming::Close)],
    );
    assert!(matches!(result, Some(Err(_))));
}

#[test]
fn order_acknowledged() {
    let client = started("DOT");
    let size = 2.1_f32.to_bits();
    let (actions, result) = run_session(
        |p, e| client.submit_buy_order::<u8>(size, p, e),
        vec![
            Event::Written(WriteOutcome::Written),
            Event::Reply(Incoming::Ping(vec![1])),
            Event::Reply(Incoming::Payload(Some(7))),
        ],
    );
    assert_eq!(
        actions,
        vec![
            Action::Write(ServerMessage::SubmitBuyOrder { buy_order: size }),
            Action::Read(None),
            Action::Read(Some(ControlFrame::Pong(vec![1]))),
        ]
    );
    assert_eq!(result, Some(Ok(7)));
    assert_eq!(f32::from_bits(size), 2.1_f32);
}

#[test]
fn sell_order_closed_connection_recovers() {
    let client = started("DOT");
    let (actions, result) = run_session(
        |p, e| client.submit_sell_order::<u8>(9, p, e),
        vec![
            Event::Written(WriteOutcome::Written),
            Event::Reply(Incoming::Close),
            Event::Written(WriteOutcome::Written),
            Event::Ack(Incoming::Payload(Some(SUCCESS))),
        ],
    );
    assert_eq!(
        actions,
        vec![
            Action::Write(ServerMessage::SubmitSellOrder { sell_order: 9 }),
            Action::Read(None),
            recovery("DOT"),
            Action::ReadAck(None),
        ]
    );
    assert_eq!(result, Some(Err(SessionError::ConnectionClosed)));
}

#[test]
fn order_failed_write_recovers() {
    let client = started("DOT");
    let (actions, result) = run_session(
        |p, e| client.submit_order::<u8>(3, OrderType::Buy, p, e),
        vec![
            Event::Written(WriteOutcome::TransportFailed),
            Event::Written(WriteOutcome::TransportFailed),
        ],
    );
    assert_eq!(
        actions,
        vec![Action::Write(ServerMessage::SubmitBuyOrder { buy_order: 3 }), recovery("DOT")]
    );
    assert_eq!(result, Some(Err(SessionError::ConnectionClosed)));
}

#[test]
fn order_other_failures_are_handed_on() {
    let client = started("DOT");
    let (_, result) = run_session(
        |p, e| client.submit_order::<u8>(3, OrderType::Sell, p, e),
        vec![Event::Written(WriteOutcome::Written), Event::Reply(Incoming::Payload(None))],
    );
    assert_eq!(result, Some(Err(SessionError::NoAvailableTicker)));
    let (_, result) = run_session(
        |p, e| client.submit_order::<u8>(3, OrderType::Sell, p, e),
        vec![Event::Written(WriteOutcome::Written), Event::Reply(Incoming::RawFrame)],
    );
    assert_eq!(result, Some(Err(SessionError::InvalidMessage)));
}

#[test]
fn ticker_delivered() {
    let client = started("BTC");
    let (actions, result) = run_session(
        |p, e| client.retrieve_ticker::<u32>(p, e),
        vec![Event::Reply(Incoming::Pong), Event::Reply(Incoming::Payload(Some(Some(4))))],
    );
    assert_eq!(actions, vec![Action::Read(None), Action::Read(None)]);
    assert_eq!(result, Some(Ok(Some(4))));
}

#[test]
fn ticker_closed_connection_recovers() {
    let client = started("AB");
    let (actions, result) = run_session(
        |p, e| client.retrieve_ticker::<u32>(p, e),
        vec![
            Event::Reply(Incoming::Close),
            Event::Written(WriteOutcome::Written),
            Event::Ack(Incoming::Payload(Some(SUCCESS))),
        ],
    );
    assert_eq!(actions, vec![Action::Read(None), recovery("AB"), Action::ReadAck(None)]);
    assert_eq!(result, Some(Ok(None)));
}

#[test]
fn ticker_recovery_failures() {
    let client = started("AB");
    let (_, result) = run_session(
        |p, e| client.retrieve_ticker::<u32>(p, e),
        vec![Event::Reply(Incoming::Close), Event::Written(WriteOutcome::TransportFailed)],
    );
    assert_eq!(result, Some(Err(StateError::new(StateErrorVariant::ConnectionClosed))));
    let (_, result) = run_session(
        |p, e| client.retrieve_ticker::<u32>(p, e),
        vec![
            Event::Reply(Incoming::Close),
            Event::Written(WriteOutcome::Written),
            Event::Ack(Incoming::RawFrame),
        ],
    );
    assert_eq!(result, Some(Err(StateError::new(StateErrorVariant::InvalidMessage))));
}

#[test]
fn ticker_other_failures_are_invalid_messages() {
    let client = started("BTC");
    let (_, result) = run_session(
        |p, e| client.retrieve_ticker::<u32>(p, e),
        vec![Event::Reply(Incoming::Payload(None))],
    );
    assert_eq!(result, Some(Err(StateError::new(StateErrorVariant::InvalidMessage))));
}

#[test]
fn recovery_resumes_on_success() {
    let client = started("LTC");
    let (actions, result) = run_session(
        |p, e| client.recovery_handshake::<u8>(p, e),
        vec![Event::Written(WriteOutcome::Written), Event::Ack(Incoming::Payload(Some(SUCCESS)))],
    );
    assert_eq!(actions, vec![recovery("LTC"), Action::ReadAck(None)]);
    assert_eq!(result, Some(Ok(())));
}

#[test]
fn recovery_refused_is_unsuccessful_handshake() {
    let client = started("LTC");
    let (_, result) = run_session(
        |p, e| client.recovery_handshake::<u8>(p, e),
        vec![Event::Written(WriteOutcome::Written), Event::Ack(Incoming::Payload(Some(FAILURE)))],
    );
    assert_eq!(result, Some(Err(StateError::new(StateErrorVariant::UnsuccessfulHandshake))));
}

#[test]
fn update_parameters_subscribes_and_awaits_answer() {
    let mut client = started("XRP");
    let (actions, result) = run_session(
        |p, e| client.update_parameters::<u8>(30, 5, p, e),
        vec![Event::Written(WriteOutcome::Written), Event::Reply(Incoming::Payload(Some(0)))],
    );
    assert_eq!(
        actions,
        vec![
            Action::Write(ServerMessage::Subscribe { publish_cadence: 30, window: 5 }),
            Action::Read(None),
        ]
    );
    assert_eq!(result, Some(Ok(())));
    assert_eq!(client.pub_cadence(), 30);
    assert_eq!(client.symbol(), "XRP");
}

#[test]
fn update_parameters_failures() {
    let mut client = started("XRP");
    let (actions, result) = run_session(
        |p, e| client.update_parameters::<u8>(70_000, 5, p, e),
        vec![],
    );
    assert!(actions.is_empty());
    assert_eq!(result, Some(Err(SessionError::InvalidMessage)));
    assert_eq!(client.pub_cadence(), 70_000);
    let (_, result) = run_session(
        |p, e| client.update_parameters::<u8>(10, 5, p, e),
        vec![Event::Written(WriteOutcome::EncodingFailed)],
    );
    assert_eq!(result, Some(Err(SessionError::ConnectionClosed)));
    let (_, result) = run_session(
        |p, e| client.update_parameters::<u8>(10, 5, p, e),
        vec![Event::Written(WriteOutcome::Written), Event::Reply(Incoming::Close)],
    );
    assert_eq!(result, Some(Err(SessionError::ConnectionClosed)));
}

#[test]
fn close_connection_keeps_state_and_closes() {
    let client = started("BNB");
    let (closed, frame) = client.close_connection();
    assert_eq!(frame, ControlFrame::Close);
    assert_eq!(closed.symbol(), "BNB");
    assert_eq!(closed.pub_cadence(), 5);
}

#[test]
fn sub_parameters_default() {
    let p = SubParameters::default();
    assert_eq!(p.cadence, 0);
    assert_eq!(p.window, 0);
}
