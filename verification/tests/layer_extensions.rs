use adaptive_rpc::adaptive_concurrency::AdaptiveConcurrency;
use adaptive_rpc::layer_extensions::{
    method_name, on_failure, on_response, request_delay_ms, settle_failure_at, settle_response,
    RpcLoggingLayer,
};
use adaptive_rpc::rpc_errors::{
    classify_error, classify_given, has_throttle_error, has_throttle_error_payload,
    has_throttle_token, is_known_retryable_error, is_rate_limited_or_unavailable,
    is_throttle_error, ErrorPayload, RpcErrorKind,
};
use adaptive_rpc::text::{contains_alone, contains_beginning, contains_in_code};
use alloy::rpc::json_rpc::{Id, Request, RequestPacket, Response, ResponsePacket, SerializedRequest};

fn packet(json: &str) -> ResponsePacket {
    ResponsePacket::Single(serde_json::from_str::<Response>(json).expect("valid response"))
}

fn request(method: &'static str) -> SerializedRequest {
    Request::new(method, Id::Number(1), ()).serialize().expect("serializable request")
}

fn error(code: i64, message: &str) -> ErrorPayload {
    ErrorPayload { code, message: message.to_string() }
}

#[test]
fn success_payload_is_not_throttle() {
    let p = packet(r#"{"jsonrpc":"2.0","id":1,"result":"0x10"}"#);
    assert!(!has_throttle_error_payload(&p));
}

#[test]
fn alchemy_32001_over_http_200_is_throttle() {
    // The exact shape from the incident: HTTP 200 + JSON-RPC error payload.
    let p = packet(
        r#"{"jsonrpc":"2.0","id":1,"error":{"code":-32001,"message":"Unable to complete request at this time."}}"#,
    );
    assert!(has_throttle_error_payload(&p));
}

#[test]
fn rate_limit_message_is_throttle() {
    let p = packet(
        r#"{"jsonrpc":"2.0","id":1,"error":{"code":-32005,"message":"too many requests"}}"#,
    );
    assert!(has_throttle_error_payload(&p));
}

#[test]
fn block_range_error_is_not_throttle() {
    // Routine range-probing errors must still count as provider-alive (decay allowed).
    let p = packet(
        r#"{"jsonrpc":"2.0","id":1,"error":{"code":-32602,"message":"block range too large"}}"#,
    );
    assert!(!has_throttle_error_payload(&p));
}

#[test]
fn numeric_noise_in_data_does_not_false_positive() {
    // "429" inside the error data must not be mistaken for HTTP 429: only code and message count.
    let p = packet(
        r#"{"jsonrpc":"2.0","id":1,"error":{"code":-32602,"message":"invalid params","data":"0x429abc"}}"#,
    );
    assert!(!has_throttle_error_payload(&p));
}

#[test]
fn batch_with_one_throttle_error_is_throttle() {
    let ok = serde_json::from_str::<Response>(r#"{"jsonrpc":"2.0","id":1,"result":"0x1"}"#)
        .expect("valid response");
    let throttled = serde_json::from_str::<Response>(
        r#"{"jsonrpc":"2.0","id":2,"error":{"code":-32001,"message":"Unable to complete request at this time."}}"#,
    )
    .expect("valid response");
    let p = ResponsePacket::Batch(vec![ok, throttled]);
    assert!(has_throttle_error_payload(&p));
}

#[test]
fn every_throttle_token_is_found_in_any_case() {
    for message in [
        "HTTP 429",
        "Rate Limit reached",
        "RATE-LIMITED",
        "rate exceeded",
        "Too Many Requests",
        "Quota used up",
        "request was Throttled",
        "HTTP error 503 with empty body",
        "status: 503",
        "Service Unavailable",
        "Temporarily unavailable",
        "Unable to complete request",
        "code -32001",
    ] {
        assert!(is_rate_limited_or_unavailable(message), "{}", message);
    }
}

#[test]
fn bare_numbers_are_no_throttle_signal() {
    assert!(!is_rate_limited_or_unavailable("block 503 not found"));
    assert!(!is_rate_limited_or_unavailable("19503000"));
    assert!(!is_rate_limited_or_unavailable("19429000"));
    assert!(is_rate_limited_or_unavailable("429"));
    assert!(!is_rate_limited_or_unavailable(""));
}

#[test]
fn block_numbers_are_not_taken_for_codes() {
    for message in [
        "header not found for block 18429001",
        "header not found for block 1429",
        "header not found for block 4290",
        "missing block 0x429abc",
        "missing block 0x1F429",
        "unknown hash 0xab4290cd429e",
        "no logs in blocks 31000-32001",
        "no logs in blocks 31000-320015",
        "no logs in blocks 0x10-32001",
        "no header of block-18429001",
        "no code at block 18429001",
    ] {
        assert!(!is_rate_limited_or_unavailable(message), "{}", message);
    }
    for message in [
        "429",
        "HTTP429",
        "code=429,",
        "block 18429001: HTTP 429",
        "0x10 429",
        "429 at 18429001",
        "(-32001)",
        "31000-32001: code -32001",
        "error code -32429: slow down",
        "error code 1429: slow down",
        r#"{"error":{"code":-32429,"message":"slow down"}}"#,
        "server error -32429",
        "code -320015",
        "rpc-32001",
    ] {
        assert!(is_rate_limited_or_unavailable(message), "{}", message);
    }
}

#[test]
fn numbers_stand_alone_or_not() {
    assert!(contains_alone("a429b", "429"));
    assert!(!contains_alone("a4290", "429"));
    assert!(!contains_alone("1429", "429"));
    assert!(contains_alone("1429 429", "429"));
    assert!(!contains_alone("0x429", "429"));
    assert!(contains_alone("x429", "429"));
    assert!(!contains_alone("0xdead429", "429"));
    assert!(contains_alone("0xg429", "429"));
    assert!(!contains_alone("42", "429"));
    assert!(!contains_alone("", "429"));
}

#[test]
fn numbers_are_presented_as_codes_or_not() {
    assert!(contains_in_code("code 14290", "429"));
    assert!(contains_in_code("code=429", "429"));
    assert!(contains_in_code("-1429", "429"));
    assert!(contains_in_code("(-4290)", "429"));
    assert!(!contains_in_code("1-4290", "429"));
    assert!(!contains_in_code("a-4290", "429"));
    assert!(!contains_in_code("codes 14290", "429"));
    assert!(!contains_in_code("429", "429"));
    assert!(contains_beginning("a-320015", "-32001"));
    assert!(!contains_beginning("7-32001", "-32001"));
    assert!(!contains_beginning("0xab-32001", "-32001"));
    assert!(!contains_beginning("-3200", "-32001"));
}

#[test]
fn a_block_number_leaves_the_controller_alone() {
    let mut c = AdaptiveConcurrency::new(20, 2, 200);
    assert_eq!(
        on_failure(&mut c, "header not found for block 18429001"),
        Some(RpcErrorKind::Other)
    );
    assert_eq!((c.backoff_ms(), c.current(), c.rate_limit_count()), (0, 20, 0));
    c.record_rate_limit_at(0);
    let p = packet(
        r#"{"jsonrpc":"2.0","id":1,"error":{"code":-32000,"message":"header not found for block 18429001"}}"#,
    );
    assert!(!on_response(&mut c, 0, &p));
    assert_eq!(c.backoff_ms(), 375);
}

#[test]
fn other_scripts_do_not_hide_tokens() {
    assert!(is_rate_limited_or_unavailable("\u{c4}rger: QUOTA"));
    assert!(is_throttle_error(&error(-32001, "\u{39f}\u{3a3}")));
    assert!(!is_rate_limited_or_unavailable("\u{39f}\u{3a3}"));
}

#[test]
fn tokens_are_matched_in_lower_case() {
    assert!(has_throttle_token("quota"));
    assert!(!has_throttle_token("QUOTA"));
}

#[test]
fn throttle_codes_speak_for_themselves() {
    assert!(is_throttle_error(&error(-32001, "whatever")));
    assert!(is_throttle_error(&error(429, "")));
    assert!(!is_throttle_error(&error(-32000, "execution reverted")));
    assert!(!is_throttle_error(&error(i64::MIN, "")));
    assert!(is_throttle_error(&error(-32429, "")));
    assert!(is_throttle_error(&error(14290, "")));
    assert!(is_throttle_error(&error(-320015, "")));
    assert!(!is_throttle_error(&error(32001, "")));
    assert!(!is_throttle_error(&error(-32602, "unknown block 18429001")));
    assert!(is_throttle_error(&error(0, "quota")));
    assert!(!has_throttle_error(&vec![]));
    assert!(has_throttle_error(&vec![error(1, "fine"), error(2, "throttled")]));
}

#[test]
fn known_retryable_phrases_are_found_as_written() {
    for message in [
        "this block range should work: [0x1, 0x2]",
        "try with this block range",
        "block range is too wide",
        "eth_getLogs is limited to a 10k range",
        "block range too large",
        "response is too big",
        "error decoding response body",
    ] {
        assert!(is_known_retryable_error(message), "{}", message);
        assert_eq!(classify_error(message), None);
    }
    assert!(!is_known_retryable_error("Block Range Too Large"));
}

#[test]
fn errors_are_classified_in_order() {
    assert_eq!(classify_error("operation timed out"), Some(RpcErrorKind::Timeout));
    assert_eq!(classify_error("timeout, HTTP 429"), Some(RpcErrorKind::Timeout));
    assert_eq!(classify_error("HTTP error 429"), Some(RpcErrorKind::RateLimited));
    assert_eq!(classify_error("429: connection closed"), Some(RpcErrorKind::RateLimited));
    assert_eq!(classify_error("connection refused"), Some(RpcErrorKind::Connection));
    assert_eq!(classify_error("network unreachable"), Some(RpcErrorKind::Connection));
    assert_eq!(classify_error("error sending request"), Some(RpcErrorKind::Connection));
    assert_eq!(classify_error("execution reverted"), Some(RpcErrorKind::Other));
    assert_eq!(classify_error("response is too big (429)"), None);
    assert_eq!(classify_given("execution reverted", true), Some(RpcErrorKind::RateLimited));
}

#[test]
fn calls_are_labelled_by_method_or_size() {
    let layer = RpcLoggingLayer::new(1, "http://localhost:8545".to_string());
    let service = layer.layer("inner");
    let label = |p: &RequestPacket| service.call_context(p).method_name;
    assert_eq!(label(&RequestPacket::Single(request("eth_blockNumber"))), "eth_blockNumber");
    assert_eq!(label(&RequestPacket::Batch(vec![])), "empty_batch");
    assert_eq!(label(&RequestPacket::Batch(vec![request("eth_call")])), "eth_call");
    assert_eq!(
        label(&RequestPacket::Batch(vec![request("eth_call"), request("eth_getLogs")])),
        "batch_2_requests"
    );
    let many: Vec<String> = (0..120).map(|_| "eth_call".to_string()).collect();
    assert_eq!(method_name(&many), "batch_120_requests");
}

#[test]
fn layers_hand_their_labels_on() {
    let layer = RpcLoggingLayer::new(1, "http://localhost:8545".to_string()).clone();
    assert_eq!(layer.network, "mainnet");
    let service = layer.layer(7u8).clone();
    assert_eq!(
        (service.inner, service.chain_id, service.network.as_str(), service.rpc_url.as_str()),
        (7, 1, "mainnet", "http://localhost:8545")
    );
    let context = service.call_context(&RequestPacket::Single(request("eth_chainId")));
    assert_eq!(context.chain_id, 1);
    assert_eq!(context.network, "mainnet");
    assert_eq!(context.rpc_url, "http://localhost:8545");
    assert_eq!(RpcLoggingLayer::new(987_654_321, String::new()).network, "987654321");
}

#[test]
fn delay_is_backoff_plus_jitter() {
    assert_eq!(request_delay_ms(0, 0), None);
    assert_eq!(request_delay_ms(0, 7), None);
    assert_eq!(request_delay_ms(1_000, 0), Some(1_000));
    assert_eq!(request_delay_ms(1_000, 499), Some(1_499));
}

#[test]
fn answered_calls_decay_the_backoff_and_scale_nothing() {
    let mut c = AdaptiveConcurrency::new(20, 2, 200);
    c.record_rate_limit_at(0);
    let ok = packet(r#"{"jsonrpc":"2.0","id":1,"result":"0x10"}"#);
    assert!(!on_response(&mut c, 9, &ok));
    assert_eq!(c.backoff_ms(), 375);
    for _ in 0..40 {
        assert!(on_response(&mut c, 10, &ok));
    }
    assert_eq!((c.backoff_ms(), c.current(), c.current_batch_size()), (0, 10, 25));
}

#[test]
fn a_throttle_payload_does_not_decay_the_backoff() {
    let mut c = AdaptiveConcurrency::new(20, 2, 200);
    c.record_rate_limit_at(0);
    let p = packet(r#"{"jsonrpc":"2.0","id":1,"error":{"code":-32001,"message":"ä"}}"#);
    assert!(!on_response(&mut c, 0, &p));
    assert_eq!(c.backoff_ms(), 500);
    assert!(settle_response(&mut c, 11, true));
    assert_eq!(c.backoff_ms(), 500);
}

#[test]
fn only_rate_limits_among_failures_reach_the_controller() {
    let mut c = AdaptiveConcurrency::new(20, 2, 200);
    assert_eq!(on_failure(&mut c, "connection reset"), Some(RpcErrorKind::Connection));
    assert_eq!(on_failure(&mut c, "block range too large, 429"), None);
    assert_eq!(on_failure(&mut c, "timed out: 429"), Some(RpcErrorKind::Timeout));
    assert_eq!((c.backoff_ms(), c.current(), c.rate_limit_count()), (0, 20, 0));
    assert_eq!(on_failure(&mut c, "Too Many Requests"), Some(RpcErrorKind::RateLimited));
    assert_eq!((c.backoff_ms(), c.current(), c.rate_limit_count()), (500, 10, 1));
    settle_failure_at(&mut c, Some(RpcErrorKind::Other), 1);
    settle_failure_at(&mut c, None, 1);
    assert_eq!(c.rate_limit_count(), 1);
    settle_failure_at(&mut c, Some(RpcErrorKind::RateLimited), 1);
    assert_eq!((c.backoff_ms(), c.rate_limit_count()), (1_000, 2));
}
