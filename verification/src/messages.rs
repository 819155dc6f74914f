use vstd::prelude::*;

verus! {

/// Whether the broker accepted the opening handshake.
#[derive(Debug, Clone, Copy, PartialEq, Eq, Structural)]
pub enum HandshakeStatus {
    Success,
    Failure,
}

/// The broker's answer to a handshake.
#[derive(Debug, Clone, Copy, PartialEq, Eq, Structural)]
pub struct HandshakeAck {
    pub status: HandshakeStatus,
}

/// The side of the position that a session is opened for.
#[derive(Debug, Clone, Copy, PartialEq, Eq, Structural)]
pub enum PositionType {
    Long,
    Short,
}

/// The phases that the broker reports for a client.
#[derive(Debug, Clone, Copy, PartialEq, Eq, Structural)]
pub enum ClientState {
    PreConnection,
    Transaction,
    Subscribed,
    Closed,
}

/// The direction of an order submitted through the broker.
#[derive(Debug, Clone, Copy, PartialEq, Eq, Structural)]
pub enum OrderType {
    Buy,
    Sell,
}

/// A message published by the broker to its subscribers.
#[derive(Debug, Clone, Copy, PartialEq, Eq, Structural)]
pub struct PubMessage {
    pub i: u16,
}

/// The parameters of a subscription: how often the broker publishes, and
/// the window that each publication covers.
#[derive(Debug, Clone, Copy, PartialEq, Eq, Structural)]
pub struct SubParameters {
    pub cadence: u16,
    pub window: u16,
}

impl Default for SubParameters {
    fn default() -> (p: SubParameters)
        ensures
            p.cadence == 0,
            p.window == 0,
    {
        SubParameters { cadence: 0, window: 0 }
    }
}

/// A message that the client sends to the broker.
///
/// Order sizes are single-precision floating-point numbers on the wire; here
/// they are carried as their IEEE-754 bit patterns, which the encoder turns
/// back into the number one for one.
#[derive(Debug, PartialEq, Eq)]
pub enum ServerMessage {
    SubmitBuyOrder { buy_order: u32 },
    SubmitSellOrder { sell_order: u32 },
    Subscribe { publish_cadence: u16, window: u16 },
    ServerState { symbol: String },
    SessionHandshake { symbol: String, publish_cadence: u16, position_type: PositionType },
    RecoveryHandshake { symbol: String },
    CloseConnection { status: String },
}

/// The abstract form of a message to the broker: strings are taken by their
/// characters, order sizes by their bit patterns.
pub enum ServerMessageView {
    SubmitBuyOrder { buy_order: u32 },
    SubmitSellOrder { sell_order: u32 },
    Subscribe { publish_cadence: u16, window: u16 },
    ServerState { symbol: Seq<char> },
    SessionHandshake { symbol: Seq<char>, publish_cadence: u16, position_type: PositionType },
    RecoveryHandshake { symbol: Seq<char> },
    CloseConnection { status: Seq<char> },
}

impl View for ServerMessage {
    type V = ServerMessageView;

    open spec fn view(&self) -> ServerMessageView {
        match self {
            ServerMessage::SubmitBuyOrder { buy_order } => ServerMessageView::SubmitBuyOrder {
                buy_order: *buy_order,
            },
            ServerMessage::SubmitSellOrder { sell_order } => ServerMessageView::SubmitSellOrder {
                sell_order: *sell_order,
            },
            ServerMessage::Subscribe { publish_cadence, window } => ServerMessageView::Subscribe {
                publish_cadence: *publish_cadence,
                window: *window,
            },
            ServerMessage::ServerState { symbol } => ServerMessageView::ServerState {
                symbol: symbol@,
            },
            ServerMessage::SessionHandshake { symbol, publish_cadence, position_type } =>
                ServerMessageView::SessionHandshake {
                symbol: symbol@,
                publish_cadence: *publish_cadence,
                position_type: *position_type,
            },
            ServerMessage::RecoveryHandshake { symbol } => ServerMessageView::RecoveryHandshake {
                symbol: symbol@,
            },
            ServerMessage::CloseConnection { status } => ServerMessageView::CloseConnection {
                status: status@,
            },
        }
    }
}

/// The message that places an order of the given size (by its bit pattern)
/// in the given direction.
pub open spec fn order_view(order_size: u32, order_type: OrderType) -> ServerMessageView {
    match order_type {
        OrderType::Buy => ServerMessageView::SubmitBuyOrder { buy_order: order_size },
        OrderType::Sell => ServerMessageView::SubmitSellOrder { sell_order: order_size },
    }
}

/// A message is taken by its fields unchanged: sizes bit for bit, strings
/// by their characters.
pub proof fn lemma_message_view_keeps_fields(
    n: u32,
    cadence: u16,
    window: u16,
    text: String,
    pt: PositionType,
)
    ensures
        (ServerMessage::SubmitBuyOrder { buy_order: n })@ == (ServerMessageView::SubmitBuyOrder {
            buy_order: n,
        }),
        (ServerMessage::SubmitSellOrder { sell_order: n })@ == (ServerMessageView::SubmitSellOrder {
            sell_order: n,
        }),
        (ServerMessage::Subscribe { publish_cadence: cadence, window })@ == (
        ServerMessageView::Subscribe { publish_cadence: cadence, window }),
        (ServerMessage::ServerState { symbol: text })@ == (ServerMessageView::ServerState {
            symbol: text@,
        }),
        (ServerMessage::SessionHandshake {
            symbol: text,
            publish_cadence: cadence,
            position_type: pt,
        })@ == (ServerMessageView::SessionHandshake {
            symbol: text@,
            publish_cadence: cadence,
            position_type: pt,
        }),
        (ServerMessage::RecoveryHandshake { symbol: text })@ == (
        ServerMessageView::RecoveryHandshake { symbol: text@ }),
        (ServerMessage::CloseConnection { status: text })@ == (ServerMessageView::CloseConnection {
            status: text@,
        }),
{
}

} // verus!
