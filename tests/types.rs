use bpx_api_client::error::Error;
use bpx_api_client::fill::{FillType, FillsHistoryParams};
use bpx_api_client::history::OrderHistoryQuery;
use bpx_api_client::markets::{GetMarketsRequest, OrderBookDepthLimit};
use bpx_api_client::timestamp::{
    parse_i64, parse_timestamp_str, str_or_i64_from_str, str_or_i64_from_u64, timestamp_from_u64,
};
use bpx_api_client::types::{MarketType, SortDirection};

#[test]
fn markets_request_lists_types_in_order() {
    let r = GetMarketsRequest::new().with_spot_markets().with_perp_markets().with_prediction_markets();
    assert!(r.validate().is_ok());
    let q = r.query_params();
    assert_eq!(
        q,
        vec![
            ("marketType".to_string(), "SPOT".to_string()),
            ("marketType".to_string(), "PERP".to_string()),
            ("marketType".to_string(), "PREDICTION".to_string()),
        ]
    );
}

#[test]
fn empty_markets_request_is_invalid() {
    let r = GetMarketsRequest::new();
    match r.validate() {
        Err(Error::InvalidRequest(m)) => assert_eq!(m, "at least one market type must be specified"),
        _ => panic!("expected a refusal"),
    }
    assert!(r.query_params().is_empty());
}

#[test]
fn depth_limits() {
    assert_eq!(OrderBookDepthLimit::try_from_levels(5), Ok(OrderBookDepthLimit::Five));
    assert_eq!(OrderBookDepthLimit::try_from_levels(1000), Ok(OrderBookDepthLimit::OneThousand));
    assert!(OrderBookDepthLimit::try_from_levels(7).is_err());
    assert!(OrderBookDepthLimit::try_from_levels(0).is_err());
    assert_eq!(OrderBookDepthLimit::FiveHundred.levels(), 500);
}

#[test]
fn fills_params_builders() {
    let p = FillsHistoryParams::new()
        .with_symbol("SOL_USDC")
        .with_from(1)
        .with_to(2)
        .with_fill_type(FillType::Liquidation)
        .with_market_type("PERP")
        .with_order_id("42")
        .with_strategy_id("s")
        .with_limit(10)
        .with_offset(20)
        .with_sort_direction(SortDirection::Desc);
    assert_eq!(p.symbol.as_deref(), Some("SOL_USDC"));
    assert_eq!(p.from, Some(1));
    assert_eq!(p.to, Some(2));
    assert_eq!(p.fill_type, Some(FillType::Liquidation));
    assert_eq!(p.market_type.as_deref(), Some("PERP"));
    assert_eq!(p.order_id.as_deref(), Some("42"));
    assert_eq!(p.strategy_id.as_deref(), Some("s"));
    assert_eq!(p.limit, Some(10));
    assert_eq!(p.offset, Some(20));
    assert_eq!(p.sort_direction, Some(SortDirection::Desc));
}

#[test]
fn order_history_query_default_is_empty() {
    let q = OrderHistoryQuery::default();
    assert!(q.order_id.is_none() && q.symbol.is_none() && q.limit.is_none() && q.market_type.is_none());
}

#[test]
fn enum_names() {
    assert_eq!(MarketType::Iperp.as_str(), "IPERP");
    assert_eq!(SortDirection::Asc.as_str(), "Asc");
}

#[test]
fn test_flexible_timestamp_parsing() {
    assert_eq!(timestamp_from_u64(1754019359017), 1754019359017);
    let with_ms = parse_timestamp_str("2025-07-24T04:05:48.931").unwrap();
    assert!(with_ms > 1700000000000);
    assert!(with_ms < 2000000000000);
    let no_ms = parse_timestamp_str("2025-07-24T04:05:48").unwrap();
    assert!(no_ms > 1700000000000);
    assert!(no_ms < 2000000000000);
    assert_eq!(parse_timestamp_str("1754019359017").unwrap(), 1754019359017);
}

#[test]
fn iso_timestamps_are_exact() {
    assert_eq!(parse_timestamp_str("2025-07-24T04:05:48.931").unwrap(), 1753329948931);
    assert_eq!(parse_timestamp_str("2025-07-24T04:05:48").unwrap(), 1753329948000);
    assert_eq!(parse_timestamp_str("yesterday"), Err("invalid datetime format".to_string()));
}

#[test]
fn test_order_book_depth_last_update_id_as_string() {
    assert_eq!(str_or_i64_from_str("94978271").unwrap(), 94978271);
}

#[test]
fn test_order_book_depth_last_update_id_as_i64() {
    assert_eq!(str_or_i64_from_u64(94978271).unwrap(), 94978271);
    assert_eq!(str_or_i64_from_u64(u64::MAX), Err("value too large".to_string()));
    assert!(str_or_i64_from_str("x1").is_err());
    assert!(str_or_i64_from_str("").is_err());
    assert!(str_or_i64_from_str("9223372036854775808").is_err());
}

#[test]
fn integers_parse_like_std() {
    for s in ["0", "-0", "+7", "-9223372036854775808", "9223372036854775807", "0012", "-", "+", "", "1a", " 1", "9223372036854775808", "-9223372036854775809", "99999999999999999999999"] {
        assert_eq!(parse_i64(s), s.parse::<i64>().ok(), "input {s:?}");
    }
}
