//! Enumerations shared by several parts of the API.

use vstd::prelude::*;

verus! {

/// A blockchain on which assets are deposited and withdrawn.
#[derive(Clone, Copy, Debug, PartialEq, Eq, Hash, Structural)]
pub enum Blockchain {
    Solana,
    Ethereum,
    Polygon,
    Bitcoin,
    Internal,
    EqualsMoney,
    Cardano,
    Hyperliquid,
    Story,
    Bsc,
    Dogecoin,
    Sui,
    XRP,
    Litecoin,
    Berachain,
}

/// A kind of market.
#[derive(Clone, Copy, Debug, PartialEq, Eq, Hash, Structural)]
pub enum MarketType {
    Spot,
    Perp,
    Iperp,
    Dated,
    Prediction,
    Rfq,
}

/// The exchange's name for a value.
pub open spec fn market_type_name(v: MarketType) -> Seq<char> {
    match v {
        MarketType::Spot => "SPOT"@,
        MarketType::Perp => "PERP"@,
        MarketType::Iperp => "IPERP"@,
        MarketType::Dated => "DATED"@,
        MarketType::Prediction => "PREDICTION"@,
        MarketType::Rfq => "RFQ"@,
    }
}

impl MarketType {
    /// The name the exchange uses.
    pub fn as_str(&self) -> (r: &'static str)
        ensures
            r@ == market_type_name(*self),
    {
        match self {
            MarketType::Spot => "SPOT",
            MarketType::Perp => "PERP",
            MarketType::Iperp => "IPERP",
            MarketType::Dated => "DATED",
            MarketType::Prediction => "PREDICTION",
            MarketType::Rfq => "RFQ",
        }
    }
}

/// The order of a listing.
#[derive(Clone, Copy, Debug, PartialEq, Eq, Hash, Structural)]
pub enum SortDirection {
    Asc,
    Desc,
}

/// The exchange's name for a value.
pub open spec fn sort_direction_name(v: SortDirection) -> Seq<char> {
    match v {
        SortDirection::Asc => "Asc"@,
        SortDirection::Desc => "Desc"@,
    }
}

impl SortDirection {
    /// The name the exchange uses.
    pub fn as_str(&self) -> (r: &'static str)
        ensures
            r@ == sort_direction_name(*self),
    {
        match self {
            SortDirection::Asc => "Asc",
            SortDirection::Desc => "Desc",
        }
    }
}

} // verus!
