//! Payloads of account, user, request-for-quote and vault operations.

use vstd::prelude::*;

verus! {

/// Converts a dust balance, of one symbol or of all.
#[derive(Clone, Debug, Default)]
pub struct ConvertDustPayload {
    pub symbol: Option<String>,
}

/// Asks for a two-factor token.
#[derive(Clone, Debug, Default)]
pub struct RequestTwoFactorPayload {
    pub app: Option<String>,
    pub email: Option<String>,
}

/// The token issued for a two-factor request.
#[derive(Clone, Debug, Default)]
pub struct RequestTwoFactorResponse {
    pub signature: String,
}

/// How a request for quote executes once quoted.
#[derive(Clone, Copy, Debug, PartialEq, Eq, Hash, Structural)]
pub enum RfqExecutionMode {
    AwaitAccept,
    Immediate,
}

/// Cancels a request for quote, by its ID or client ID.
#[derive(Clone, Debug)]
pub struct RequestForQuoteCancelPayload {
    pub rfq_id: Option<String>,
    pub client_id: Option<u32>,
}

/// Refreshes a request for quote.
#[derive(Clone, Debug)]
pub struct RequestForQuoteRefreshPayload {
    pub rfq_id: String,
}

/// Accepts a quote.
#[derive(Clone, Debug)]
pub struct QuoteAcceptPayload {
    pub rfq_id: Option<String>,
    pub client_id: Option<u32>,
    pub quote_id: String,
}

/// The state of a vault redemption.
#[derive(Clone, Copy, Debug, PartialEq, Eq, Hash, Structural)]
pub enum VaultRedeemStatus {
    Requested,
    Redeemed,
    Cancelled,
}

} // verus!
