use broker_client::errors::{SessionError, StateError, StateErrorVariant};

#[test]
fn state_error_messages() {
    let cases = [
        (StateErrorVariant::ConnectionClosed, "Connection has been closed"),
        (
            StateErrorVariant::AddVolumeToSell,
            "The connection must routed to volume in before volume buys can be processed",
        ),
        (
            StateErrorVariant::SellVolumeToAdd,
            "The connection must be routed to volume out before sells can be processed",
        ),
        (
            StateErrorVariant::PositionActive,
            "Connection cannot be closed while position is still active",
        ),
        (StateErrorVariant::InvalidMessage, "Unable to generate message"),
        (StateErrorVariant::HandShake, "Hand shake already completed"),
        (StateErrorVariant::UnsuccessfulHandshake, "Hand shake recovery failed"),
    ];
    for (variant, text) in cases {
        assert_eq!(StateError::new(variant).message(), text);
        assert_eq!(StateError::new(variant).error, variant);
    }
}

#[test]
fn transport_failure_is_connection_closed() {
    assert_eq!(
        StateError::connection_closed(),
        StateError { error: StateErrorVariant::ConnectionClosed }
    );
}

#[test]
fn session_error_messages() {
    assert_eq!(
        SessionError::InvalidMessage.message(),
        "Message sent to Message Broker invalid"
    );
    assert_eq!(SessionError::ConnectionClosed.message(), "Session Connection is Closed");
    assert_eq!(SessionError::ConnectionReset.message(), "Connection was reset");
    assert_eq!(SessionError::NoAvailableTicker.message(), "No ticker available");
}
