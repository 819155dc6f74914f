use vstd::prelude::*;

verus! {

/// The ways in which a session can fail, as reported to the user.
#[derive(Debug, Clone, Copy, PartialEq, Eq, Structural)]
pub enum StateErrorVariant {
    HandShake,
    InvalidMessage,
    UnsuccessfulHandshake,
    ConnectionClosed,
    PositionActive,
    AddVolumeToSell,
    SellVolumeToAdd,
}

/// A session error reported to the user of the client.
#[derive(Debug, Clone, Copy, PartialEq, Eq, Structural)]
pub struct StateError {
    pub error: StateErrorVariant,
}

/// The text that describes each session error.
pub open spec fn state_error_text(v: StateErrorVariant) -> Seq<char> {
    match v {
        StateErrorVariant::ConnectionClosed => "Connection has been closed"@,
        StateErrorVariant::AddVolumeToSell =>
            "The connection must routed to volume in before volume buys can be processed"@,
        StateErrorVariant::SellVolumeToAdd =>
            "The connection must be routed to volume out before sells can be processed"@,
        StateErrorVariant::PositionActive =>
            "Connection cannot be closed while position is still active"@,
        StateErrorVariant::InvalidMessage => "Unable to generate message"@,
        StateErrorVariant::HandShake => "Hand shake already completed"@,
        StateErrorVariant::UnsuccessfulHandshake => "Hand shake recovery failed"@,
    }
}

impl StateError {
    pub fn new(error: StateErrorVariant) -> (e: StateError)
        ensures
            e.error == error,
    {
        StateError { error }
    }

    /// The error that a failure of the transport turns into.
    pub fn connection_closed() -> (e: StateError)
        ensures
            e.error == StateErrorVariant::ConnectionClosed,
    {
        StateError::new(StateErrorVariant::ConnectionClosed)
    }

    /// The human-readable description of the error.
    pub fn message(&self) -> (s: &'static str)
        ensures
            s@ == state_error_text(self.error),
    {
        match self.error {
            StateErrorVariant::ConnectionClosed => "Connection has been closed",
            StateErrorVariant::AddVolumeToSell => {
                "The connection must routed to volume in before volume buys can be processed"
            },
            StateErrorVariant::SellVolumeToAdd => {
                "The connection must be routed to volume out before sells can be processed"
            },
            StateErrorVariant::PositionActive => {
                "Connection cannot be closed while position is still active"
            },
            StateErrorVariant::InvalidMessage => "Unable to generate message",
            StateErrorVariant::HandShake => "Hand shake already completed",
            StateErrorVariant::UnsuccessfulHandshake => "Hand shake recovery failed",
        }
    }
}

/// The ways in which reading a message from the broker within a session can fail.
#[derive(Debug, Clone, Copy, PartialEq, Eq, Structural)]
pub enum SessionError {
    InvalidMessage,
    ConnectionClosed,
    NoAvailableTicker,
    ConnectionReset,
}

/// The text that describes each failure of a read within a session.
pub open spec fn session_error_text(e: SessionError) -> Seq<char> {
    match e {
        SessionError::InvalidMessage => "Message sent to Message Broker invalid"@,
        SessionError::ConnectionClosed => "Session Connection is Closed"@,
        SessionError::ConnectionReset => "Connection was reset"@,
        SessionError::NoAvailableTicker => "No ticker available"@,
    }
}

impl SessionError {
    /// The human-readable description of the error.
    pub fn message(&self) -> (s: &'static str)
        ensures
            s@ == session_error_text(*self),
    {
        match self {
            SessionError::InvalidMessage => "Message sent to Message Broker invalid",
            SessionError::ConnectionClosed => "Session Connection is Closed",
            SessionError::ConnectionReset => "Connection was reset",
            SessionError::NoAvailableTicker => "No ticker available",
        }
    }
}

/// The ways in which the opening handshake with the broker can fail.
#[derive(Debug, Clone, Copy, PartialEq, Eq, Structural)]
pub enum HandshakeError {
    /// The transport failed or was closed.
    ConnectionError,
    /// The handshake could not be encoded, or the broker did not acknowledge it.
    BadHandshake,
}

/// The text of each session error.
pub proof fn lemma_state_error_texts()
    ensures
        state_error_text(StateErrorVariant::ConnectionClosed) == "Connection has been closed"@,
        state_error_text(StateErrorVariant::AddVolumeToSell)
            == "The connection must routed to volume in before volume buys can be processed"@,
        state_error_text(StateErrorVariant::SellVolumeToAdd)
            == "The connection must be routed to volume out before sells can be processed"@,
        state_error_text(StateErrorVariant::PositionActive)
            == "Connection cannot be closed while position is still active"@,
        state_error_text(StateErrorVariant::InvalidMessage) == "Unable to generate message"@,
        state_error_text(StateErrorVariant::HandShake) == "Hand shake already completed"@,
        state_error_text(StateErrorVariant::UnsuccessfulHandshake) == "Hand shake recovery failed"@,
{
}

/// The text of each failure of a read within a session.
pub proof fn lemma_session_error_texts()
    ensures
        session_error_text(SessionError::InvalidMessage)
            == "Message sent to Message Broker invalid"@,
        session_error_text(SessionError::ConnectionClosed) == "Session Connection is Closed"@,
        session_error_text(SessionError::ConnectionReset) == "Connection was reset"@,
        session_error_text(SessionError::NoAvailableTicker) == "No ticker available"@,
{
}

} // verus!
