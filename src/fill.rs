//! Fills and the parameters of the fill history query.

use crate::types::SortDirection;
use vstd::prelude::*;

verus! {

/// Why a fill happened.
#[derive(Clone, Copy, Debug, PartialEq, Eq, Hash, Structural)]
pub enum FillType {
    User,
    BookLiquidation,
    Adl,
    Backstop,
    Liquidation,
    AllLiquidation,
    CollateralConversion,
    CollateralConversionAndSpotLiquidation,
}

/// Filters and paging of the fill history; every field is optional.
#[derive(Clone, Debug, Default)]
pub struct FillsHistoryParams {
    /// Filter by symbol.
    pub symbol: Option<String>,
    /// From timestamp in milliseconds.
    pub from: Option<i64>,
    /// To timestamp in milliseconds.
    pub to: Option<i64>,
    /// Filter by fill type.
    pub fill_type: Option<FillType>,
    /// Filter by market type.
    pub market_type: Option<String>,
    /// Filter by order ID.
    pub order_id: Option<String>,
    /// Filter by strategy ID.
    pub strategy_id: Option<String>,
    /// Maximum number of results to return.
    pub limit: Option<u64>,
    /// Offset for pagination.
    pub offset: Option<u64>,
    /// Sort direction.
    pub sort_direction: Option<SortDirection>,
}

impl FillsHistoryParams {
    /// Parameters with no filter set.
    pub fn new() -> (r: FillsHistoryParams)
        ensures
            r.symbol is None,
            r.from is None,
            r.to is None,
            r.fill_type is None,
            r.market_type is None,
            r.order_id is None,
            r.strategy_id is None,
            r.limit is None,
            r.offset is None,
            r.sort_direction is None,
    {
        FillsHistoryParams {
            symbol: None,
            from: None,
            to: None,
            fill_type: None,
            market_type: None,
            order_id: None,
            strategy_id: None,
            limit: None,
            offset: None,
            sort_direction: None,
        }
    }

    /// Sets: filter by symbol.
    pub fn with_symbol(self, symbol: &str) -> (r: FillsHistoryParams)
        ensures
            r.symbol matches Some(v) && v@ == symbol@,
            r.from == self.from,
            r.to == self.to,
            r.fill_type == self.fill_type,
            r.market_type == self.market_type,
            r.order_id == self.order_id,
            r.strategy_id == self.strategy_id,
            r.limit == self.limit,
            r.offset == self.offset,
            r.sort_direction == self.sort_direction,
    {
        FillsHistoryParams { symbol: Some(String::from_str(symbol)), ..self }
    }

    /// Sets: from timestamp in milliseconds.
    pub fn with_from(self, from: i64) -> (r: FillsHistoryParams)
        ensures
            r.from == Some(from),
            r.symbol == self.symbol,
            r.to == self.to,
            r.fill_type == self.fill_type,
            r.market_type == self.market_type,
            r.order_id == self.order_id,
            r.strategy_id == self.strategy_id,
            r.limit == self.limit,
            r.offset == self.offset,
            r.sort_direction == self.sort_direction,
    {
        FillsHistoryParams { from: Some(from), ..self }
    }

    /// Sets: to timestamp in milliseconds.
    pub fn with_to(self, to: i64) -> (r: FillsHistoryParams)
        ensures
            r.to == Some(to),
            r.symbol == self.symbol,
            r.from == self.from,
            r.fill_type == self.fill_type,
            r.market_type == self.market_type,
            r.order_id == self.order_id,
            r.strategy_id == self.strategy_id,
            r.limit == self.limit,
            r.offset == self.offset,
            r.sort_direction == self.sort_direction,
    {
        FillsHistoryParams { to: Some(to), ..self }
    }

    /// Sets: filter by fill type.
    pub fn with_fill_type(self, fill_type: FillType) -> (r: FillsHistoryParams)
        ensures
            r.fill_type == Some(fill_type),
            r.symbol == self.symbol,
            r.from == self.from,
            r.to == self.to,
            r.market_type == self.market_type,
            r.order_id == self.order_id,
            r.strategy_id == self.strategy_id,
            r.limit == self.limit,
            r.offset == self.offset,
            r.sort_direction == self.sort_direction,
    {
        FillsHistoryParams { fill_type: Some(fill_type), ..self }
    }

    /// Sets: filter by market type.
    pub fn with_market_type(self, market_type: &str) -> (r: FillsHistoryParams)
        ensures
            r.market_type matches Some(v) && v@ == market_type@,
            r.symbol == self.symbol,
            r.from == self.from,
            r.to == self.to,
            r.fill_type == self.fill_type,
            r.order_id == self.order_id,
            r.strategy_id == self.strategy_id,
            r.limit == self.limit,
            r.offset == self.offset,
            r.sort_direction == self.sort_direction,
    {
        FillsHistoryParams { market_type: Some(String::from_str(market_type)), ..self }
    }

    /// Sets: filter by order ID.
    pub fn with_order_id(self, order_id: &str) -> (r: FillsHistoryParams)
        ensures
            r.order_id matches Some(v) && v@ == order_id@,
            r.symbol == self.symbol,
            r.from == self.from,
            r.to == self.to,
            r.fill_type == self.fill_type,
            r.market_type == self.market_type,
            r.strategy_id == self.strategy_id,
            r.limit == self.limit,
            r.offset == self.offset,
            r.sort_direction == self.sort_direction,
    {
        FillsHistoryParams { order_id: Some(String::from_str(order_id)), ..self }
    }

    /// Sets: filter by strategy ID.
    pub fn with_strategy_id(self, strategy_id: &str) -> (r: FillsHistoryParams)
        ensures
            r.strategy_id matches Some(v) && v@ == strategy_id@,
            r.symbol == self.symbol,
            r.from == self.from,
            r.to == self.to,
            r.fill_type == self.fill_type,
            r.market_type == self.market_type,
            r.order_id == self.order_id,
            r.limit == self.limit,
            r.offset == self.offset,
            r.sort_direction == self.sort_direction,
    {
        FillsHistoryParams { strategy_id: Some(String::from_str(strategy_id)), ..self }
    }

    /// Sets: maximum number of results to return.
    pub fn with_limit(self, limit: u64) -> (r: FillsHistoryParams)
        ensures
            r.limit == Some(limit),
            r.symbol == self.symbol,
            r.from == self.from,
            r.to == self.to,
            r.fill_type == self.fill_type,
            r.market_type == self.market_type,
            r.order_id == self.order_id,
            r.strategy_id == self.strategy_id,
            r.offset == self.offset,
            r.sort_direction == self.sort_direction,
    {
        FillsHistoryParams { limit: Some(limit), ..self }
    }

    /// Sets: offset for pagination.
    pub fn with_offset(self, offset: u64) -> (r: FillsHistoryParams)
        ensures
            r.offset == Some(offset),
            r.symbol == self.symbol,
            r.from == self.from,
            r.to == self.to,
            r.fill_type == self.fill_type,
            r.market_type == self.market_type,
            r.order_id == self.order_id,
            r.strategy_id == self.strategy_id,
            r.limit == self.limit,
            r.sort_direction == self.sort_direction,
    {
        FillsHistoryParams { offset: Some(offset), ..self }
    }

    /// Sets: sort direction.
    pub fn with_sort_direction(self, sort_direction: SortDirection) -> (r: FillsHistoryParams)
        ensures
            r.sort_direction == Some(sort_direction),
            r.symbol == self.symbol,
            r.from == self.from,
            r.to == self.to,
            r.fill_type == self.fill_type,
            r.market_type == self.market_type,
            r.order_id == self.order_id,
            r.strategy_id == self.strategy_id,
            r.limit == self.limit,
            r.offset == self.offset,
    {
        FillsHistoryParams { sort_direction: Some(sort_direction), ..self }
    }
}

} // verus!
