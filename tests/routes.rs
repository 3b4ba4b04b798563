use bpx_api_client::error::Error;
use bpx_api_client::markets::OrderBookDepthLimit;
use bpx_api_client::routes::{
    depth_query, historical_trades_query, k_lines_query, max_withdrawal_query, open_order_query, paging_query,
    recent_trades_query,
};
use bpx_api_client::text::{decimal_of, signed_decimal_of};

fn pairs(list: &[(&str, &str)]) -> Vec<(String, String)> {
    list.iter().map(|(k, v)| (k.to_string(), v.to_string())).collect()
}

#[test]
fn open_order_prefers_order_id() {
    assert_eq!(
        open_order_query("SOL_USDC", Some("111"), Some(7)).unwrap(),
        pairs(&[("symbol", "SOL_USDC"), ("orderId", "111")])
    );
    assert_eq!(
        open_order_query("SOL_USDC", None, Some(7)).unwrap(),
        pairs(&[("symbol", "SOL_USDC"), ("clientId", "7")])
    );
    assert!(matches!(open_order_query("SOL_USDC", None, None), Err(Error::InvalidRequest(_))));
}

#[test]
fn max_withdrawal_switches() {
    assert_eq!(max_withdrawal_query("USDC", None, None), pairs(&[("symbol", "USDC")]));
    assert_eq!(
        max_withdrawal_query("USDC", Some(true), Some(false)),
        pairs(&[("symbol", "USDC"), ("autoBorrow", "true"), ("autoLendRedeem", "false")])
    );
}

#[test]
fn paging_and_trades() {
    assert!(paging_query(None, None).is_empty());
    assert_eq!(paging_query(Some(10), Some(-1)), pairs(&[("limit", "10"), ("offset", "-1")]));
    assert_eq!(
        historical_trades_query("SOL_USDC", Some(10), None),
        pairs(&[("symbol", "SOL_USDC"), ("limit", "10")])
    );
    assert_eq!(recent_trades_query("SOL_USDC", Some(10)), pairs(&[("symbol", "SOL_USDC"), ("limit", "10")]));
    assert_eq!(recent_trades_query("SOL_USDC", None), pairs(&[("symbol", "SOL_USDC")]));
}

#[test]
fn k_lines_times() {
    assert_eq!(
        k_lines_query("SOL_USDC", "15m", 1000, Some(3600)),
        pairs(&[("symbol", "SOL_USDC"), ("interval", "15m"), ("startTime", "1000"), ("endTime", "3600")])
    );
    assert_eq!(
        k_lines_query("SOL_USDC", "1h", -5, None),
        pairs(&[("symbol", "SOL_USDC"), ("interval", "1h"), ("startTime", "-5")])
    );
}

#[test]
fn depth_limit_text() {
    assert_eq!(
        depth_query("SOL_USDC", Some(OrderBookDepthLimit::OneHundred)),
        pairs(&[("symbol", "SOL_USDC"), ("limit", "100")])
    );
    assert_eq!(depth_query("SOL_USDC", None), pairs(&[("symbol", "SOL_USDC")]));
}

#[test]
fn integer_text() {
    assert_eq!(decimal_of(0), "0");
    assert_eq!(decimal_of(1234567890), "1234567890");
    assert_eq!(signed_decimal_of(i64::MIN), "-9223372036854775808");
    assert_eq!(signed_decimal_of(i64::MAX), "9223372036854775807");
    assert_eq!(signed_decimal_of(-42), "-42");
}

#[test]
fn refusal_messages() {
    match open_order_query("SOL_USDC", None, None) {
        Err(Error::InvalidRequest(m)) => assert_eq!(m, "either order_id or client_id is required"),
        _ => panic!("expected a refusal"),
    }
    assert_eq!(OrderBookDepthLimit::try_from_levels(3), Err("Invalid OrderBookDepthLimit value".to_string()));
}
