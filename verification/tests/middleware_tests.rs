use aegis_gateway::middleware::{
    echo_request_id, resolve_request_id, response_time_value, set_response_time,
    span_request_id, tag_request, timeout_response, LatencyTrackingLayer, RequestIdLayer,
    TimeoutLayer, TracingLayer,
};
use aegis_gateway::strmap::StringMap;
use std::time::Duration;

#[test]
fn layers_wrap_inner() {
    assert_eq!(LatencyTrackingLayer::new().layer(5u8).inner, 5);
    assert_eq!(RequestIdLayer::new().layer("svc").inner, "svc");
    assert_eq!(TracingLayer::new().layer(1u32).inner, 1);
    let t = TimeoutLayer::new(Duration::from_millis(50)).layer(());
    assert_eq!(t.timeout_duration, Duration::from_millis(50));
}

#[test]
fn request_id_is_propagated_or_generated() {
    let mut h = StringMap::new();
    h.insert("x-request-id".into(), "custom-req-id-999".into());
    assert_eq!(resolve_request_id(&h, "fresh"), "custom-req-id-999");
    assert_eq!(span_request_id(&h), "custom-req-id-999");
    let empty = StringMap::new();
    assert_eq!(resolve_request_id(&empty, "fresh-1"), "fresh-1");
    assert_eq!(resolve_request_id(&empty, "bad\u{7f}"), "req-fallback");
    assert_eq!(span_request_id(&empty), "unknown");
}

#[test]
fn timeout_answer_and_latency() {
    let r = timeout_response();
    assert_eq!(r.status, 504);
    assert_eq!(
        r.body,
        r#"{"jsonrpc":"2.0","error":{"code":-32011,"message":"Upstream request timeout exceeded"},"id":null}"#
    );
    assert_eq!(response_time_value(1234), "1234");
}

#[test]
fn request_id_tagged_and_echoed() {
    let mut req = StringMap::new();
    req.insert("x-request-id".into(), "custom-req-id-999".into());
    let id = tag_request(&mut req, "fresh");
    assert_eq!(id, "custom-req-id-999");
    assert_eq!(req.get("x-request-id").map(String::as_str), Some("custom-req-id-999"));
    let mut resp = StringMap::new();
    echo_request_id(&mut resp, &id);
    assert_eq!(resp.get("x-request-id").map(String::as_str), Some("custom-req-id-999"));

    let mut bare = StringMap::new();
    bare.insert("accept".into(), "*/*".into());
    let id = tag_request(&mut bare, "0f2c");
    assert_eq!(id, "0f2c");
    assert_eq!(bare.get("x-request-id").map(String::as_str), Some("0f2c"));
    assert_eq!(bare.len(), 2);
}

#[test]
fn latency_header_is_decimal_microseconds() {
    let mut h = StringMap::new();
    set_response_time(&mut h, 5031);
    assert_eq!(h.get("x-response-time-us").map(String::as_str), Some("5031"));
    set_response_time(&mut h, u128::MAX);
    assert_eq!(
        h.get("x-response-time-us").map(String::as_str),
        Some("340282366920938463463374607431768211455")
    );
    assert_eq!(h.len(), 1);
    assert_eq!(response_time_value(0), "0");
}
