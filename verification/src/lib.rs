//! Client side of a publish/subscribe protocol spoken with a message broker.
//!
//! The library holds the decisions of the client: the session's typestate and
//! its transitions, the messages that are sent to the broker, how every frame
//! read from the broker is answered, and which tickers make up the last
//! minute of the ticker history. The transport (a websocket), JSON encoding
//! and floating-point aggregation are done by the program around it.

pub mod errors;

pub mod messages;
pub mod address;
pub mod client;
pub mod frames;
pub mod ticker;
pub mod exchange;
pub mod session_laws;
