use aegis_gateway::strmap::StringMap;
use aegis_gateway::telemetry::{
    exposition_or_notice, extract_trace_context, http_request_sample, inject_trace_headers,
    security_violation_sample, TraceContext,
};

#[test]
fn new_root_produces_valid_traceparent() {
    let ctx = TraceContext::new_root();
    assert_eq!(ctx.trace_id.len(), 32);
    assert_eq!(ctx.span_id.len(), 16);
    assert!(ctx.is_sampled());
    let tp = ctx.to_traceparent();
    assert!(tp.starts_with("00-"));
    // Must round-trip
    let parsed = TraceContext::from_traceparent(&tp).unwrap();
    assert_eq!(parsed.trace_id, ctx.trace_id);
    assert_eq!(parsed.span_id, ctx.span_id);
}

#[test]
fn child_span_shares_trace_id() {
    let root = TraceContext::new_root();
    let child = root.child_span();
    assert_eq!(child.trace_id, root.trace_id);
    assert_ne!(child.span_id, root.span_id);
}

#[test]
fn invalid_traceparent_returns_new_root() {
    assert!(TraceContext::from_traceparent("garbage").is_none());
    assert!(TraceContext::from_traceparent("01-abc-def-00").is_none()); // version 01 unsupported
}

#[test]
fn extract_from_headers_falls_back_to_new_root() {
    let headers = StringMap::new();
    let ctx = extract_trace_context(&headers);
    assert_eq!(ctx.trace_id.len(), 32);
}

#[test]
fn inject_and_extract_roundtrip() {
    let original = TraceContext::new_root();
    let mut headers = StringMap::new();
    inject_trace_headers(&mut headers, &original);
    let extracted = extract_trace_context(&headers);
    // The injected header uses a *child* span_id but the same trace_id.
    assert_eq!(extracted.trace_id, original.trace_id);
    assert_ne!(extracted.span_id, original.span_id);
}

#[test]
fn traceparent_exact_text_and_flags() {
    let ctx = TraceContext {
        trace_id: "4bf92f3577b34da6a3ce929d0e0e4736".to_string(),
        span_id: "00f067aa0ba902b7".to_string(),
        flags: 0x01,
    };
    assert_eq!(
        ctx.to_traceparent(),
        "00-4bf92f3577b34da6a3ce929d0e0e4736-00f067aa0ba902b7-01"
    );
    let zero = TraceContext { trace_id: "a".to_string(), span_id: "b".to_string(), flags: 0xaa };
    assert_eq!(zero.to_traceparent(), "00-a-b-aa");
    assert!(!zero.is_sampled());
}

#[test]
fn traceparent_parsing_edge_cases() {
    const T: &str = "4bf92f3577b34da6a3ce929d0e0e4736";
    const S: &str = "00f067aa0ba902b7";
    let ok = TraceContext::from_traceparent(&format!("00-{T}-{S}-ff")).unwrap();
    assert_eq!((ok.trace_id.as_str(), ok.span_id.as_str(), ok.flags), (T, S, 255));
    // Extra pieces after the flags are tolerated.
    assert_eq!(TraceContext::from_traceparent(&format!("00-{T}-{S}-01-x")).unwrap().flags, 1);
    // Ids of the wrong length or alphabet are malformed.
    assert!(TraceContext::from_traceparent("00-abc-def-01").is_none());
    assert!(TraceContext::from_traceparent(&format!("00-{}-{S}-01", T.to_uppercase())).is_none());
    assert!(TraceContext::from_traceparent(&format!("00-{T}-{S}0-01")).is_none());
    assert!(TraceContext::from_traceparent(&format!("00-{T}x-{S}-01")).is_none());
    // Flags must be exactly two lowercase hexadecimal digits.
    assert!(TraceContext::from_traceparent(&format!("00-{T}-{S}-FF")).is_none());
    assert!(TraceContext::from_traceparent(&format!("00-{T}-{S}-+1")).is_none());
    assert!(TraceContext::from_traceparent(&format!("00-{T}-{S}-001")).is_none());
    assert!(TraceContext::from_traceparent(&format!("00-{T}-{S}-zz")).is_none());
    assert!(TraceContext::from_traceparent(&format!("00-{T}-{S}-")).is_none());
    assert!(TraceContext::from_traceparent(&format!("00-{T}-{S}")).is_none());
}

#[test]
fn new_root_ids_carry_uuid_version_and_variant() {
    let ctx = TraceContext::new_root();
    assert_eq!(ctx.trace_id.as_bytes()[12], b'4');
    assert_eq!(ctx.trace_id.as_bytes()[28], b'4');
    assert!(matches!(ctx.span_id.as_bytes()[0], b'8' | b'9' | b'a' | b'b'));
    assert_eq!(ctx.child_span().span_id.as_bytes()[12], b'4');
}

#[test]
fn extract_uses_valid_header() {
    let mut headers = StringMap::new();
    headers.insert(
        "traceparent".to_string(),
        "00-4bf92f3577b34da6a3ce929d0e0e4736-00f067aa0ba902b7-00".to_string(),
    );
    let ctx = extract_trace_context(&headers);
    assert_eq!(ctx.trace_id, "4bf92f3577b34da6a3ce929d0e0e4736");
    assert_eq!(ctx.span_id, "00f067aa0ba902b7");
    assert_eq!(ctx.flags, 0);
    assert!(!ctx.is_sampled());
}

#[test]
fn inject_skips_unacceptable_trace_id() {
    let ctx = TraceContext { trace_id: "bad\u{7f}id".to_string(), span_id: "s".to_string(), flags: 1 };
    let mut headers = StringMap::new();
    inject_trace_headers(&mut headers, &ctx);
    assert!(headers.get("traceparent").is_none());
}

#[test]
fn metric_samples_carry_labels() {
    let s = http_request_sample("POST", 401, "auth");
    assert_eq!(s.name, "aegis_http_requests_total");
    assert_eq!(
        s.labels,
        vec![
            ("method".to_string(), "POST".to_string()),
            ("status".to_string(), "401".to_string()),
            ("route".to_string(), "auth".to_string()),
        ]
    );
    let v = security_violation_sample("rate_limit_exceeded");
    assert_eq!(v.name, "aegis_security_violations_total");
    assert_eq!(v.labels, vec![("violation_type".to_string(), "rate_limit_exceeded".to_string())]);
}

#[test]
fn exposition_falls_back_to_notice() {
    assert_eq!(exposition_or_notice(None), "# metrics recorder not initialised\n");
    assert_eq!(exposition_or_notice(Some("a 1\n".to_string())), "a 1\n");
}
