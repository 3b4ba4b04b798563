//! The query parameters of the exchange's endpoints, in the order they are
//! appended to the URL.

use crate::client::pairs_view;
use crate::error::Error;
use crate::markets::{depth_levels, OrderBookDepthLimit};
use crate::query::Entry;
use crate::text::{bool_str, bool_text, decimal_of, decimal_text, signed_decimal_of, signed_text};
use vstd::prelude::*;

verus! {

/// The message of the error for an order looked up by neither ID.
pub const NO_ORDER_ID: &'static str = "either order_id or client_id is required";

/// `(key, value)` when the value is there, else nothing.
pub open spec fn optional_pair(key: Seq<char>, value: Option<Seq<char>>) -> Seq<Entry> {
    match value {
        Some(v) => seq![(key, v)],
        None => Seq::empty(),
    }
}

/// The text of an optional signed integer.
pub open spec fn signed_opt(v: Option<i64>) -> Option<Seq<char>> {
    match v {
        Some(x) => Some(signed_text(x as int)),
        None => None,
    }
}

/// The text of an optional boolean.
pub open spec fn bool_opt(v: Option<bool>) -> Option<Seq<char>> {
    match v {
        Some(x) => Some(bool_text(x)),
        None => None,
    }
}

fn push_pair(q: &mut Vec<(String, String)>, key: &str, value: String)
    ensures
        pairs_view(final(q)@) == pairs_view(old(q)@).push((key@, value@)),
{
    q.push((String::from_str(key), value));
    assert(pairs_view(q@) =~= pairs_view(old(q)@).push((key@, value@)));
}

fn push_signed(q: &mut Vec<(String, String)>, key: &str, value: Option<i64>)
    ensures
        pairs_view(final(q)@) == pairs_view(old(q)@) + optional_pair(key@, signed_opt(value)),
{
    match value {
        Some(v) => push_pair(q, key, signed_decimal_of(v)),
        None => {},
    }
    assert(pairs_view(q@) =~= pairs_view(old(q)@) + optional_pair(key@, signed_opt(value)));
}

fn push_bool(q: &mut Vec<(String, String)>, key: &str, value: Option<bool>)
    ensures
        pairs_view(final(q)@) == pairs_view(old(q)@) + optional_pair(key@, bool_opt(value)),
{
    match value {
        Some(v) => push_pair(q, key, String::from_str(bool_str(v))),
        None => {},
    }
    assert(pairs_view(q@) =~= pairs_view(old(q)@) + optional_pair(key@, bool_opt(value)));
}

fn symbol_query(symbol: &str) -> (r: Vec<(String, String)>)
    ensures
        pairs_view(r@) == seq![("symbol"@, symbol@)],
{
    let mut q: Vec<(String, String)> = Vec::new();
    push_pair(&mut q, "symbol", String::from_str(symbol));
    assert(pairs_view(q@) =~= seq![("symbol"@, symbol@)]);
    q
}

/// One open order is looked up by its order ID, or else by its client ID;
/// one of the two is required.
pub fn open_order_query(symbol: &str, order_id: Option<&str>, client_id: Option<u32>) -> (r: Result<
    Vec<(String, String)>,
    Error,
>)
    ensures
        match (order_id, client_id) {
            (Some(o), _) => r matches Ok(q) && pairs_view(q@) == seq![("symbol"@, symbol@), ("orderId"@, o@)],
            (None, Some(c)) => r matches Ok(q) && pairs_view(q@) == seq![
                ("symbol"@, symbol@),
                ("clientId"@, decimal_text(c as nat)),
            ],
            (None, None) => r matches Err(Error::InvalidRequest(m)) && m@ == NO_ORDER_ID@,
        },
{
    let mut q = symbol_query(symbol);
    match (order_id, client_id) {
        (Some(o), _) => push_pair(&mut q, "orderId", String::from_str(o)),
        (None, Some(c)) => push_pair(&mut q, "clientId", decimal_of(c as u64)),
        (None, None) => {
            return Err(Error::InvalidRequest(String::from_str(NO_ORDER_ID)));
        },
    }
    Ok(q)
}

/// The limit of the maximum withdrawal of a symbol, with the optional
/// borrowing and lending switches.
pub fn max_withdrawal_query(symbol: &str, auto_borrow: Option<bool>, auto_lend_redeem: Option<bool>) -> (r: Vec<
    (String, String),
>)
    ensures
        pairs_view(r@) == seq![("symbol"@, symbol@)] + optional_pair("autoBorrow"@, bool_opt(auto_borrow))
            + optional_pair("autoLendRedeem"@, bool_opt(auto_lend_redeem)),
{
    let mut q = symbol_query(symbol);
    push_bool(&mut q, "autoBorrow", auto_borrow);
    push_bool(&mut q, "autoLendRedeem", auto_lend_redeem);
    q
}

/// Paging of a listing: the optional limit and offset.
pub fn paging_query(limit: Option<i64>, offset: Option<i64>) -> (r: Vec<(String, String)>)
    ensures
        pairs_view(r@) == optional_pair("limit"@, signed_opt(limit)) + optional_pair("offset"@, signed_opt(offset)),
{
    let mut q: Vec<(String, String)> = Vec::new();
    assert(pairs_view(q@) =~= Seq::<Entry>::empty());
    push_signed(&mut q, "limit", limit);
    push_signed(&mut q, "offset", offset);
    assert(pairs_view(q@) =~= optional_pair("limit"@, signed_opt(limit)) + optional_pair("offset"@, signed_opt(offset)));
    q
}

/// The trade history of a symbol, paged.
pub fn historical_trades_query(symbol: &str, limit: Option<i64>, offset: Option<i64>) -> (r: Vec<(String, String)>)
    ensures
        pairs_view(r@) == seq![("symbol"@, symbol@)] + optional_pair("limit"@, signed_opt(limit))
            + optional_pair("offset"@, signed_opt(offset)),
{
    let mut q = symbol_query(symbol);
    push_signed(&mut q, "limit", limit);
    push_signed(&mut q, "offset", offset);
    q
}

/// The recent trades of a symbol, with an optional count.
pub fn recent_trades_query(symbol: &str, limit: Option<i16>) -> (r: Vec<(String, String)>)
    ensures
        pairs_view(r@) == seq![("symbol"@, symbol@)] + optional_pair(
            "limit"@,
            match limit {
                Some(l) => Some(signed_text(l as int)),
                None => None,
            },
        ),
{
    let mut q = symbol_query(symbol);
    match limit {
        Some(l) => push_signed(&mut q, "limit", Some(l as i64)),
        None => {},
    }
    assert(pairs_view(q@) =~= seq![("symbol"@, symbol@)] + optional_pair(
        "limit"@,
        match limit {
            Some(l) => Some(signed_text(l as int)),
            None => None,
        },
    ));
    q
}

/// Candles of a symbol at an interval, from a start time and to an
/// optional end time (seconds).
pub fn k_lines_query(symbol: &str, kline_interval: &str, start_time: i64, end_time: Option<i64>) -> (r: Vec<
    (String, String),
>)
    ensures
        pairs_view(r@) == seq![
            ("symbol"@, symbol@),
            ("interval"@, kline_interval@),
            ("startTime"@, signed_text(start_time as int)),
        ] + optional_pair("endTime"@, signed_opt(end_time)),
{
    let mut q = symbol_query(symbol);
    push_pair(&mut q, "interval", String::from_str(kline_interval));
    push_pair(&mut q, "startTime", signed_decimal_of(start_time));
    let ghost before = pairs_view(q@);
    assert(before =~= seq![
        ("symbol"@, symbol@),
        ("interval"@, kline_interval@),
        ("startTime"@, signed_text(start_time as int)),
    ]);
    push_signed(&mut q, "endTime", end_time);
    q
}

/// The order book of a symbol, with an optional depth.
pub fn depth_query(symbol: &str, limit: Option<OrderBookDepthLimit>) -> (r: Vec<(String, String)>)
    ensures
        pairs_view(r@) == seq![("symbol"@, symbol@)] + optional_pair(
            "limit"@,
            match limit {
                Some(l) => Some(decimal_text(depth_levels(l) as nat)),
                None => None,
            },
        ),
{
    let mut q = symbol_query(symbol);
    match limit {
        Some(l) => push_pair(&mut q, "limit", decimal_of(l.levels() as u64)),
        None => {},
    }
    assert(pairs_view(q@) =~= seq![("symbol"@, symbol@)] + optional_pair(
        "limit"@,
        match limit {
            Some(l) => Some(decimal_text(depth_levels(l) as nat)),
            None => None,
        },
    ));
    q
}

} // verus!
