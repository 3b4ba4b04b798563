//! Market data requests: the market listing filter and order book depth
//! limits.

use crate::error::Error;
use crate::client::pairs_view;
use vstd::prelude::*;

verus! {

/// Kinds of market a listing can be filtered to.
#[derive(Clone, Copy, Debug, PartialEq, Eq, Hash, Structural)]
pub enum MarketType {
    Spot,
    Perp,
}

/// A request for the list of markets of some kinds.
#[derive(Clone, Debug, Default)]
pub struct GetMarketsRequest(Vec<String>);

impl View for GetMarketsRequest {
    type V = Seq<Seq<char>>;

    closed spec fn view(&self) -> Seq<Seq<char>> {
        self.0@.map_values(|t: String| t@)
    }
}

/// The message of the error for a request that selects no kind of market.
pub const NO_MARKET_TYPE: &'static str = "at least one market type must be specified";

/// The message of the error for a depth the exchange does not offer.
pub const INVALID_DEPTH_LIMIT: &'static str = "Invalid OrderBookDepthLimit value";

/// The name of the query parameter that selects a kind of market.
pub const MARKET_TYPE_PARAM: &'static str = "marketType";

impl GetMarketsRequest {
    /// A request with no kind of market selected yet.
    pub fn new() -> (r: GetMarketsRequest)
        ensures
            r@ == Seq::<Seq<char>>::empty(),
    {
        let r = GetMarketsRequest(Vec::new());
        assert(r@ =~= Seq::<Seq<char>>::empty());
        r
    }

    fn with_market_type(self, market_type: &str) -> (r: GetMarketsRequest)
        ensures
            r@ == self@.push(market_type@),
    {
        let GetMarketsRequest(mut types) = self;
        types.push(String::from_str(market_type));
        let r = GetMarketsRequest(types);
        assert(r@ =~= self@.push(market_type@));
        r
    }

    /// Adds spot markets.
    pub fn with_spot_markets(self) -> (r: GetMarketsRequest)
        ensures
            r@ == self@.push("SPOT"@),
    {
        self.with_market_type("SPOT")
    }

    /// Adds perpetual markets.
    pub fn with_perp_markets(self) -> (r: GetMarketsRequest)
        ensures
            r@ == self@.push("PERP"@),
    {
        self.with_market_type("PERP")
    }

    /// Adds prediction markets.
    pub fn with_prediction_markets(self) -> (r: GetMarketsRequest)
        ensures
            r@ == self@.push("PREDICTION"@),
    {
        self.with_market_type("PREDICTION")
    }

    /// A request must select at least one kind of market.
    pub fn validate(&self) -> (r: Result<(), Error>)
        ensures
            self@.len() == 0 ==> (r matches Err(Error::InvalidRequest(m)) && m@ == NO_MARKET_TYPE@),
            self@.len() > 0 ==> r is Ok,
    {
        if self.0.len() == 0 {
            return Err(Error::InvalidRequest(String::from_str(NO_MARKET_TYPE)));
        }
        Ok(())
    }

    /// One `marketType` query parameter per selected kind, in order.
    pub fn query_params(&self) -> (r: Vec<(String, String)>)
        ensures
            pairs_view(r@) == self@.map_values(|t: Seq<char>| (MARKET_TYPE_PARAM@, t)),
    {
        let mut r: Vec<(String, String)> = Vec::new();
        let n = self.0.len();
        let mut i: usize = 0;
        while i < n
            invariant
                n == self.0@.len(),
                i <= n,
                r@.len() == i,
                forall|j: int| 0 <= j < i ==> (#[trigger] r@[j]).0@ == MARKET_TYPE_PARAM@ && r@[j].1@ == self.0@[j]@,
            decreases n - i,
        {
            r.push((String::from_str(MARKET_TYPE_PARAM), self.0[i].clone()));
            i = i + 1;
        }
        assert(pairs_view(r@) =~= self@.map_values(|t: Seq<char>| (MARKET_TYPE_PARAM@, t)));
        r
    }
}

/// How many price levels an order book snapshot holds.
#[derive(Clone, Copy, Debug, PartialEq, Eq, Structural)]
pub enum OrderBookDepthLimit {
    Five,
    Ten,
    Twenty,
    Fifty,
    OneHundred,
    FiveHundred,
    OneThousand,
}

/// The number of levels of a depth limit.
pub open spec fn depth_levels(limit: OrderBookDepthLimit) -> u32 {
    match limit {
        OrderBookDepthLimit::Five => 5,
        OrderBookDepthLimit::Ten => 10,
        OrderBookDepthLimit::Twenty => 20,
        OrderBookDepthLimit::Fifty => 50,
        OrderBookDepthLimit::OneHundred => 100,
        OrderBookDepthLimit::FiveHundred => 500,
        OrderBookDepthLimit::OneThousand => 1000,
    }
}

impl OrderBookDepthLimit {
    /// The limit of `value` levels, where the exchange offers it.
    pub fn try_from_levels(value: u32) -> (r: Result<OrderBookDepthLimit, String>)
        ensures
            match r {
                Ok(l) => depth_levels(l) == value,
                Err(m) => m@ == INVALID_DEPTH_LIMIT@ && forall|l: OrderBookDepthLimit| depth_levels(l) != value,
            },
    {
        match value {
            5 => Ok(OrderBookDepthLimit::Five),
            10 => Ok(OrderBookDepthLimit::Ten),
            20 => Ok(OrderBookDepthLimit::Twenty),
            50 => Ok(OrderBookDepthLimit::Fifty),
            100 => Ok(OrderBookDepthLimit::OneHundred),
            500 => Ok(OrderBookDepthLimit::FiveHundred),
            1000 => Ok(OrderBookDepthLimit::OneThousand),
            _ => Err(String::from_str(INVALID_DEPTH_LIMIT)),
        }
    }

    /// The number of levels.
    pub fn levels(&self) -> (r: u32)
        ensures
            r == depth_levels(*self),
    {
        match self {
            OrderBookDepthLimit::Five => 5,
            OrderBookDepthLimit::Ten => 10,
            OrderBookDepthLimit::Twenty => 20,
            OrderBookDepthLimit::Fifty => 50,
            OrderBookDepthLimit::OneHundred => 100,
            OrderBookDepthLimit::FiveHundred => 500,
            OrderBookDepthLimit::OneThousand => 1000,
        }
    }
}

} // verus!
