use broker_client::errors::{HandshakeError, SessionError};
use broker_client::frames::{ack_step, message_step, ControlFrame, Incoming, ReadStep};
use broker_client::messages::{HandshakeAck, HandshakeStatus};

fn finished_ack(step: ReadStep<(), HandshakeError>) -> Result<(), HandshakeError> {
    match step {
        ReadStep::Finish(r) => r,
        _ => panic!("expected the handshake read to finish"),
    }
}

fn finished_msg(step: ReadStep<u16, SessionError>) -> Result<u16, SessionError> {
    match step {
        ReadStep::Finish(r) => r,
        _ => panic!("expected the session read to finish"),
    }
}

#[test]
fn ack_success_ends_handshake() {
    let ack = HandshakeAck { status: HandshakeStatus::Success };
    assert_eq!(finished_ack(ack_step(Incoming::Payload(Some(ack)))), Ok(()));
}

#[test]
fn ack_failure_or_garbage_is_bad_handshake() {
    let ack = HandshakeAck { status: HandshakeStatus::Failure };
    assert_eq!(
        finished_ack(ack_step(Incoming::Payload(Some(ack)))),
        Err(HandshakeError::BadHandshake)
    );
    assert_eq!(
        finished_ack(ack_step(Incoming::Payload(None))),
        Err(HandshakeError::BadHandshake)
    );
}

#[test]
fn ack_ping_is_echoed() {
    match ack_step(Incoming::Ping(vec![1, 2, 3])) {
        ReadStep::Send(ControlFrame::Pong(p)) => assert_eq!(p, vec![1, 2, 3]),
        _ => panic!("a ping is answered"),
    }
    assert!(matches!(ack_step(Incoming::Pong), ReadStep::Continue));
}

#[test]
fn ack_other_events_are_connection_errors() {
    for ev in [Incoming::Close, Incoming::RawFrame, Incoming::Failed, Incoming::Ended] {
        assert_eq!(finished_ack(ack_step(ev)), Err(HandshakeError::ConnectionError));
    }
}

#[test]
fn message_payloads() {
    assert_eq!(finished_msg(message_step(Incoming::Payload(Some(9)))), Ok(9));
    assert_eq!(
        finished_msg(message_step(Incoming::Payload(None))),
        Err(SessionError::NoAvailableTicker)
    );
}

#[test]
fn message_control_frames() {
    match message_step::<u16>(Incoming::Ping(vec![7])) {
        ReadStep::Send(ControlFrame::Pong(p)) => assert_eq!(p, vec![7]),
        _ => panic!("a ping is answered"),
    }
    assert!(matches!(message_step::<u16>(Incoming::Pong), ReadStep::Continue));
    assert!(matches!(message_step::<u16>(Incoming::Failed), ReadStep::Continue));
}

#[test]
fn message_close_and_raw_frame() {
    assert_eq!(
        finished_msg(message_step(Incoming::Close)),
        Err(SessionError::ConnectionClosed)
    );
    assert_eq!(
        finished_msg(message_step(Incoming::RawFrame)),
        Err(SessionError::InvalidMessage)
    );
}

#[test]
fn transport_error_stops_handshake_but_not_session_read() {
    assert!(matches!(ack_step(Incoming::Failed), ReadStep::Finish(Err(_))));
    assert!(matches!(message_step::<u16>(Incoming::Failed), ReadStep::Continue));
}

#[test]
fn message_end_of_stream_is_closed_connection() {
    assert_eq!(
        finished_msg(message_step(Incoming::Ended)),
        Err(SessionError::ConnectionClosed)
    );
}

fn drive_ack(events: Vec<Incoming<HandshakeAck>>) -> (Vec<Vec<u8>>, Option<Result<(), HandshakeError>>) {
    let mut pongs = Vec::new();
    for ev in events {
        match ack_step(ev) {
            ReadStep::Send(ControlFrame::Pong(p)) => pongs.push(p),
            ReadStep::Send(ControlFrame::Close) => panic!("the read loop never closes"),
            ReadStep::Continue => {}
            ReadStep::Finish(r) => return (pongs, Some(r)),
        }
    }
    (pongs, None)
}

#[test]
fn ack_read_answers_pings_in_order_until_decided() {
    let ok = HandshakeAck { status: HandshakeStatus::Success };
    let (pongs, result) = drive_ack(vec![
        Incoming::Ping(vec![1]),
        Incoming::Pong,
        Incoming::Ping(vec![2]),
        Incoming::Payload(Some(ok)),
        Incoming::Ping(vec![3]),
        Incoming::Close,
    ]);
    assert_eq!(pongs, vec![vec![1], vec![2]]);
    assert_eq!(result, Some(Ok(())));
}

#[test]
fn ack_read_without_decision_has_no_result() {
    let (pongs, result) = drive_ack(vec![Incoming::Ping(vec![9]), Incoming::Pong]);
    assert_eq!(pongs, vec![vec![9]]);
    assert_eq!(result, None);
}
