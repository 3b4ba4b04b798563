//! The query of the order history.

use crate::types::{MarketType, SortDirection};
use vstd::prelude::*;

verus! {

/// Filters and paging of the order history; every field is optional.
#[derive(Clone, Debug)]
pub struct OrderHistoryQuery {
    /// Filter to the given order.
    pub order_id: Option<String>,
    /// Filter to the given strategy.
    pub strategy_id: Option<String>,
    /// Filter to the given symbol.
    pub symbol: Option<String>,
    /// Maximum number to return.
    pub limit: Option<u64>,
    /// Offset.
    pub offset: Option<u64>,
    /// Market type filter.
    pub market_type: Option<Vec<MarketType>>,
    /// Sort direction.
    pub sort_direction: Option<SortDirection>,
}

impl Default for OrderHistoryQuery {
    /// A query with no filter set.
    fn default() -> (r: OrderHistoryQuery)
        ensures
            r.order_id is None,
            r.strategy_id is None,
            r.symbol is None,
            r.limit is None,
            r.offset is None,
            r.market_type is None,
            r.sort_direction is None,
    {
        OrderHistoryQuery {
            order_id: None,
            strategy_id: None,
            symbol: None,
            limit: None,
            offset: None,
            market_type: None,
            sort_direction: None,
        }
    }
}

} // verus!
