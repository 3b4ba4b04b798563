//! Enumerations and payloads of orders.

use vstd::prelude::*;

verus! {

/// The price that triggers a conditional order.
#[derive(Clone, Copy, Debug, PartialEq, Eq, Hash, Structural)]
pub enum TriggerBy {
    LastPrice,
    MarkPrice,
    IndexPrice,
}

/// The kind of an order.
#[derive(Clone, Copy, Debug, PartialEq, Eq, Hash, Structural)]
pub enum OrderType {
    Limit,
    Market,
}

/// How long an order stays on the book.
#[derive(Clone, Copy, Debug, PartialEq, Eq, Hash, Structural)]
pub enum TimeInForce {
    GTC,
    IOC,
    FOK,
}

/// What happens when an order would trade against the same account.
#[derive(Clone, Copy, Debug, PartialEq, Eq, Hash, Structural)]
pub enum SelfTradePrevention {
    RejectTaker,
    RejectMaker,
    RejectBoth,
    Allow,
}

/// The state of an order.
#[derive(Clone, Copy, Debug, PartialEq, Eq, Hash, Structural)]
pub enum OrderStatus {
    Cancelled,
    Expired,
    Filled,
    New,
    PartiallyFilled,
    Triggered,
    TriggerPending,
}

/// The side of an order.
#[derive(Clone, Copy, Debug, PartialEq, Eq, Hash, Structural)]
pub enum Side {
    Bid,
    Ask,
}

/// The event of an order update on the private stream.
#[derive(Clone, Copy, Debug, PartialEq, Eq, Hash, Structural)]
pub enum OrderUpdateType {
    OrderAccepted,
    OrderCancelled,
    OrderExpired,
    OrderFill,
    OrderModified,
    TriggerPlaced,
    TriggerFailed,
}

/// Cancels one order of a market, by order ID or client ID.
#[derive(Clone, Debug, Default)]
pub struct CancelOrderPayload {
    pub symbol: String,
    pub order_id: Option<String>,
    pub client_id: Option<u32>,
}

/// Cancels every open order of a market.
#[derive(Clone, Debug, Default)]
pub struct CancelOpenOrdersPayload {
    pub symbol: String,
}

} // verus!
