use base64ct::{Base64, Encoding};
use bpx_api_client::client::{BpxClient, BpxClientBuilder, RequestPlan, DEFAULT_WINDOW};
use bpx_api_client::error::Error;
use bpx_api_client::instruction::{resolve_instruction, Method};
use bpx_api_client::keys::KeyPair;
use bpx_api_client::query::QueryMap;
use bpx_api_client::signee::{
    build_signee, build_signee_query, build_signee_query_and_payload, build_signee_suffix, strip_quotes_of,
    JsonBody,
};
use ed25519_dalek::{Signature, SigningKey, Verifier};

const SECRET: &str = "AAECAwQFBgcICQoLDA0ODxAREhMUFRYXGBkaGxwdHh8=";

fn seed() -> [u8; 32] {
    let mut s = [0u8; 32];
    for (i, b) in s.iter_mut().enumerate() {
        *b = i as u8;
    }
    s
}

fn field(k: &str, v: &str) -> (String, String) {
    (k.to_string(), v.to_string())
}

fn order_body(price: &str, side: &str) -> JsonBody {
    JsonBody::Object(vec![field("side", side), field("price", price)])
}

fn client_with_key() -> BpxClient {
    BpxClientBuilder::new().secret(SECRET).build().unwrap()
}

fn client_without_key() -> BpxClient {
    BpxClientBuilder::new().build().unwrap()
}

fn pairs(list: &[(&str, &str)]) -> Vec<(String, String)> {
    list.iter().map(|(k, v)| field(k, v)).collect()
}

#[test]
fn query_keys_are_sorted() {
    let mut q = QueryMap::new();
    q.insert("b", "2");
    q.insert("a", "1");
    assert_eq!(build_signee_query("q", &q), "instruction=q&a=1&b=2");
}

#[test]
fn query_later_pair_wins() {
    let q = QueryMap::from_pairs(&pairs(&[("symbol", "SOL_USDC"), ("limit", "5"), ("symbol", "BTC_USDC")]));
    assert_eq!(q.len(), 2);
    assert_eq!(build_signee_query("orderQueryAll", &q), "instruction=orderQueryAll&limit=5&symbol=BTC_USDC");
}

#[test]
fn query_order_is_bytewise() {
    let q = QueryMap::from_pairs(&pairs(&[("b", "1"), ("B", "2"), ("ab", "3"), ("a", "4")]));
    assert_eq!(build_signee_query("x", &q), "instruction=x&B=2&a=4&ab=3&b=1");
}

#[test]
fn empty_signee_has_only_instruction_timestamp_window() {
    let q = QueryMap::new();
    let s = build_signee("balanceQuery", &q, None, 1000, 5000).unwrap();
    assert_eq!(s, "instruction=balanceQuery&timestamp=1000&window=5000");
}

#[test]
fn object_body_is_flattened_without_quotes() {
    let q = QueryMap::new();
    let body = order_body("\"10.5\"", "\"Bid\"");
    let s = build_signee("orderExecute", &q, Some(&body), 1000, 5000).unwrap();
    assert_eq!(s, "instruction=orderExecute&price=10.5&side=Bid&timestamp=1000&window=5000");
}

#[test]
fn string_value_keeps_inner_quotes() {
    let q = QueryMap::new();
    let body = JsonBody::Object(vec![field("k", "\"a\\\"\"")]);
    let s = build_signee_query_and_payload("x", &body, &q).unwrap();
    assert_eq!(s, "instruction=x&k=a\\\"");
}

#[test]
fn body_follows_query() {
    let q = QueryMap::from_pairs(&pairs(&[("z", "9")]));
    let body = JsonBody::Object(vec![field("a", "true"), field("n", "3")]);
    let s = build_signee_query_and_payload("orderExecute", &body, &q).unwrap();
    assert_eq!(s, "instruction=orderExecute&z=9&a=true&n=3");
}

#[test]
fn array_body_joins_in_order() {
    let q = QueryMap::new();
    let body = JsonBody::Array(vec![order_body("\"2\"", "\"Bid\""), order_body("\"1\"", "\"Ask\"")]);
    let s = build_signee("orderExecute", &q, Some(&body), 7, 5000).unwrap();
    assert_eq!(
        s,
        "instruction=orderExecute&price=2&side=Bid&instruction=orderExecute&price=1&side=Ask&timestamp=7&window=5000"
    );
}

#[test]
fn scalar_body_is_refused() {
    let q = QueryMap::new();
    let r = build_signee("orderExecute", &q, Some(&JsonBody::Scalar), 1, 5000);
    assert!(matches!(r, Err(Error::InvalidRequest(_))));
    let nested = JsonBody::Array(vec![order_body("\"1\"", "\"Bid\""), JsonBody::Scalar]);
    let r = build_signee_query_and_payload("orderExecute", &nested, &q);
    assert!(matches!(r, Err(Error::InvalidRequest(_))));
}

#[test]
fn signee_is_deterministic() {
    let q = QueryMap::from_pairs(&pairs(&[("symbol", "SOL_USDC")]));
    let body = order_body("\"10.5\"", "\"Bid\"");
    let a = build_signee("orderExecute", &q, Some(&body), 123, 5000).unwrap();
    let b = build_signee("orderExecute", &q, Some(&body), 123, 5000).unwrap();
    assert_eq!(a, b);
}

#[test]
fn quotes_stripped_at_both_ends() {
    assert_eq!(strip_quotes_of("\"abc\""), "abc");
    assert_eq!(strip_quotes_of("\"\"x\""), "\"x");
    assert_eq!(strip_quotes_of("\"a\\\"\""), "a\\\"");
    assert_eq!(strip_quotes_of("\""), "\"");
    assert_eq!(strip_quotes_of("a\"b"), "a\"b");
    assert_eq!(strip_quotes_of("\"\""), "");
    assert_eq!(strip_quotes_of("12"), "12");
}

#[test]
fn suffix_renders_decimal() {
    assert_eq!(build_signee_suffix(0, 5000), "&timestamp=0&window=5000");
    assert_eq!(build_signee_suffix(1754019359017, 60000), "&timestamp=1754019359017&window=60000");
    assert_eq!(build_signee_suffix(u64::MAX, u32::MAX), "&timestamp=18446744073709551615&window=4294967295");
}

#[test]
fn instruction_table() {
    assert_eq!(resolve_instruction(Method::Get, "/api/v1/capital"), Some("balanceQuery"));
    assert_eq!(resolve_instruction(Method::Post, "/api/v1/order"), Some("orderExecute"));
    assert_eq!(resolve_instruction(Method::Delete, "/api/v1/orders"), Some("orderCancelAll"));
    assert_eq!(resolve_instruction(Method::Patch, "/api/v1/account"), Some("accountUpdate"));
    assert_eq!(resolve_instruction(Method::Post, "/wapi/v1/capital/withdrawals"), Some("withdraw"));
    assert_eq!(resolve_instruction(Method::Get, "/api/v1/vault/redeems/pending"), Some("vaultPendingRedeemsQuery"));
    assert_eq!(resolve_instruction(Method::Get, "/api/v1/markets"), None);
    assert_eq!(resolve_instruction(Method::Put, "/api/v1/order"), None);
}

#[test]
fn unauthenticated_client_refuses_signed_endpoint() {
    let c = client_without_key();
    let q = pairs(&[("symbol", "SOL_USDC")]);
    let r = c.sign_request_at(Method::Get, "/api/v1/orders", &q, None, 1000);
    assert!(matches!(r, Err(Error::NotAuthenticated)));
    let body = order_body("\"1\"", "\"Bid\"");
    let r = c.build_and_maybe_sign_request(Method::Post, "/api/v1/order", &Vec::new(), Some(&body));
    assert!(matches!(r, Err(Error::NotAuthenticated)));
}

#[test]
fn unmapped_endpoint_is_unsigned() {
    let c = client_with_key();
    let q = pairs(&[("symbol", "SOL_USDC")]);
    let r = c.sign_request_at(Method::Get, "/api/v1/ticker", &q, None, 1000).unwrap();
    assert!(matches!(r, RequestPlan::Unsigned));
    let r = client_without_key().sign_request_at(Method::Get, "/api/v1/depth", &q, None, 1000).unwrap();
    assert!(matches!(r, RequestPlan::Unsigned));
}

#[test]
fn signed_request_carries_valid_signature() {
    let c = client_with_key();
    let q = pairs(&[("symbol", "SOL_USDC")]);
    let plan = c.sign_request_at(Method::Get, "/api/v1/orders", &q, None, 1700000000000).unwrap();
    let h = match plan {
        RequestPlan::Signed(h) => h,
        RequestPlan::Unsigned => panic!("expected a signed request"),
    };
    assert_eq!(h.timestamp, 1700000000000);
    assert_eq!(h.window, DEFAULT_WINDOW);
    assert!(!h.json_content_type);
    let sig_bytes = Base64::decode_vec(&h.signature).unwrap();
    let sig = Signature::from_slice(&sig_bytes).unwrap();
    let vk = SigningKey::from_bytes(&seed()).verifying_key();
    let signee = "instruction=orderQueryAll&symbol=SOL_USDC&timestamp=1700000000000&window=5000";
    assert!(vk.verify(signee.as_bytes(), &sig).is_ok());
    assert!(vk.verify(b"instruction=orderQueryAll&timestamp=1700000000000&window=5000", &sig).is_err());
}

#[test]
fn signed_post_declares_json() {
    let c = client_with_key();
    let body = order_body("\"10.5\"", "\"Bid\"");
    let plan = c.sign_request_at(Method::Post, "/api/v1/order", &Vec::new(), Some(&body), 1000).unwrap();
    let h = match plan {
        RequestPlan::Signed(h) => h,
        RequestPlan::Unsigned => panic!("expected a signed request"),
    };
    assert!(h.json_content_type);
    let sig = Signature::from_slice(&Base64::decode_vec(&h.signature).unwrap()).unwrap();
    let vk = SigningKey::from_bytes(&seed()).verifying_key();
    let signee = "instruction=orderExecute&price=10.5&side=Bid&timestamp=1000&window=5000";
    assert!(vk.verify(signee.as_bytes(), &sig).is_ok());
}

#[test]
fn json_content_type_only_with_body() {
    let c = client_with_key();
    let body = JsonBody::Object(vec![field("leverageLimit", "\"5\"")]);
    let patch = c.sign_request_at(Method::Patch, "/api/v1/account", &Vec::new(), Some(&body), 1).unwrap();
    assert!(matches!(patch, RequestPlan::Signed(ref h) if h.json_content_type));
    let del = c.sign_request_at(Method::Delete, "/api/v1/orders", &Vec::new(), None, 1).unwrap();
    assert!(matches!(del, RequestPlan::Signed(ref h) if !h.json_content_type));
    let get = c.sign_request_at(Method::Get, "/api/v1/account", &Vec::new(), None, 1).unwrap();
    assert!(matches!(get, RequestPlan::Signed(ref h) if !h.json_content_type));
}

#[test]
fn signed_request_with_bad_body_fails() {
    let c = client_with_key();
    let r = c.sign_request_at(Method::Post, "/api/v1/order", &Vec::new(), Some(&JsonBody::Scalar), 1000);
    assert!(matches!(r, Err(Error::InvalidRequest(_))));
}

#[test]
fn secret_of_wrong_length_is_refused() {
    let short = "AAECAwQFBgcICQoLDA0ODxAREhMUFRYXGBkaGxwdHg==";
    let long = "AAECAwQFBgcICQoLDA0ODxAREhMUFRYXGBkaGxwdHh8g";
    assert!(matches!(KeyPair::from_secret(short), Err(Error::SecretKey)));
    assert!(matches!(KeyPair::from_secret(long), Err(Error::SecretKey)));
    assert!(matches!(BpxClientBuilder::new().secret(short).build(), Err(Error::SecretKey)));
    assert!(matches!(BpxClientBuilder::new().secret(long).build(), Err(Error::SecretKey)));
}

#[test]
fn secret_not_base64_is_a_decode_error() {
    assert!(matches!(KeyPair::from_secret("not base64!"), Err(Error::Base64Decode(_))));
    assert!(matches!(BpxClientBuilder::new().secret("%%%%").build(), Err(Error::Base64Decode(_))));
}

#[test]
fn verifying_key_matches_secret() {
    let c = client_with_key();
    let expected = SigningKey::from_bytes(&seed()).verifying_key().to_bytes();
    assert_eq!(c.verifying_key(), Some(expected));
    assert_eq!(client_without_key().verifying_key(), None);
    let k = KeyPair::from_secret(SECRET).unwrap();
    assert_eq!(k.verifying_key_base64(), Base64::encode_string(&expected));
}

#[test]
fn default_headers_hold_api_key() {
    let c = BpxClientBuilder::new()
        .secret(SECRET)
        .headers(vec![field("X-Extra", "1")])
        .build()
        .unwrap();
    let h = c.default_headers();
    let expected_key = Base64::encode_string(&SigningKey::from_bytes(&seed()).verifying_key().to_bytes());
    assert_eq!(h, vec![field("X-Extra", "1"), field("X-API-Key", &expected_key)]);
    assert!(client_without_key().default_headers().is_empty());
}

#[test]
fn builder_defaults_and_urls() {
    let c = client_without_key();
    assert_eq!(c.base_url(), "https://api.backpack.exchange/");
    assert_eq!(c.ws_url(), "wss://ws.backpack.exchange/");
    assert_eq!(c.timeout_secs(), 30);
    let c = BpxClient::builder().base_url("http://localhost:8080").timeout(5).build().unwrap();
    assert_eq!(c.base_url(), "http://localhost:8080/");
    assert_eq!(c.timeout_secs(), 5);
    assert!(matches!(BpxClient::builder().base_url("not a url").build(), Err(Error::UrlParseError(_))));
    assert!(matches!(BpxClient::builder().ws_url("::").build(), Err(Error::UrlParseError(_))));
}

#[test]
fn init_uses_secret() {
    let c = BpxClient::init("https://api.backpack.exchange", SECRET, None).unwrap();
    assert!(c.verifying_key().is_some());
    assert!(matches!(BpxClient::init("https://api.backpack.exchange", "AAAA", None), Err(Error::SecretKey)));
}

#[test]
fn api_error_keeps_status_and_body() {
    let r = BpxClient::process_response(429, "rate limited".to_string());
    match r {
        Err(Error::BpxApiError { status_code, message }) => {
            assert_eq!(status_code, 429);
            assert_eq!(message, "rate limited");
        }
        _ => panic!("expected an API error"),
    }
    assert_eq!(BpxClient::process_response(200, "[]".to_string()).unwrap(), "[]");
    assert!(matches!(BpxClient::process_response(500, String::new()), Err(Error::BpxApiError { .. })));
    assert!(matches!(BpxClient::process_response(302, String::new()), Err(Error::BpxApiError { .. })));
}

#[test]
fn init_with_ws_sets_both_urls() {
    let c = BpxClient::init_with_ws("https://api.example.com", "wss://ws.example.com", SECRET, None).unwrap();
    assert_eq!(c.base_url(), "https://api.example.com/");
    assert_eq!(c.ws_url(), "wss://ws.example.com/");
    assert!(matches!(
        BpxClient::init_with_ws("https://api.example.com", "nope", SECRET, None),
        Err(Error::UrlParseError(_))
    ));
}

#[test]
fn refused_body_message() {
    let q = QueryMap::new();
    match build_signee("orderExecute", &q, Some(&JsonBody::Scalar), 1, 5000) {
        Err(Error::InvalidRequest(m)) => assert_eq!(m, "payload must be a JSON object"),
        _ => panic!("expected a refusal"),
    }
    let c = client_with_key();
    match c.sign_request_at(Method::Post, "/api/v1/order", &Vec::new(), Some(&JsonBody::Scalar), 1) {
        Err(Error::InvalidRequest(m)) => assert_eq!(m, "payload must be a JSON object"),
        _ => panic!("expected a refusal"),
    }
}

#[test]
fn init_keeps_headers_and_default_timeout() {
    let c = BpxClient::init("https://api.backpack.exchange", SECRET, Some(vec![field("X-Extra", "1")])).unwrap();
    assert_eq!(c.headers(), &vec![field("X-Extra", "1")]);
    assert_eq!(c.timeout_secs(), 30);
    let c = BpxClient::init_with_ws("https://a.example", "wss://b.example", SECRET, None).unwrap();
    assert!(c.headers().is_empty());
    assert_eq!(c.timeout_secs(), 30);
}
