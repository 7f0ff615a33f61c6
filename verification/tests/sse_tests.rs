use aegis_gateway::sse::{apply_sse_headers, format_sse_event, is_sse_request, SSE_CONTENT_TYPE};
use aegis_gateway::strmap::StringMap;

#[test]
fn test_format_sse_event() {
    let formatted = format_sse_event("message", "{\"jsonrpc\":\"2.0\"}");
    assert_eq!(formatted, "event: message\ndata: {\"jsonrpc\":\"2.0\"}\n\n");
}

#[test]
fn test_apply_sse_headers() {
    let mut headers = StringMap::new();
    apply_sse_headers(&mut headers);
    assert_eq!(headers.get("content-type").unwrap(), SSE_CONTENT_TYPE);
    assert_eq!(headers.get("cache-control").unwrap(), "no-cache");
}

#[test]
fn sse_headers_replace_existing_content_type() {
    let mut headers = StringMap::new();
    headers.insert("content-type".to_string(), "application/json".to_string());
    headers.insert("x-custom".to_string(), "1".to_string());
    apply_sse_headers(&mut headers);
    assert_eq!(headers.get("content-type").unwrap(), "text/event-stream");
    assert_eq!(headers.get("connection").unwrap(), "keep-alive");
    assert_eq!(headers.get("x-custom").unwrap(), "1");
    assert_eq!(headers.len(), 4);
}

#[test]
fn sse_detected_from_accept_or_content_type() {
    let mut accept = StringMap::new();
    accept.insert("accept".to_string(), "application/json, text/event-stream".to_string());
    assert!(is_sse_request(&accept));

    let mut ct = StringMap::new();
    ct.insert("content-type".to_string(), "text/event-stream; charset=utf-8".to_string());
    assert!(is_sse_request(&ct));

    let mut plain = StringMap::new();
    plain.insert("accept".to_string(), "application/json".to_string());
    assert!(!is_sse_request(&plain));
    assert!(!is_sse_request(&StringMap::new()));
}

#[test]
fn sse_ignored_when_header_is_not_text() {
    let mut headers = StringMap::new();
    headers.insert("accept".to_string(), "text/event-stream\u{7f}".to_string());
    assert!(!is_sse_request(&headers));
}

#[test]
fn sse_event_prefixes_every_data_line() {
    assert_eq!(format_sse_event("message", "a\nb"), "event: message\ndata: a\ndata: b\n\n");
    assert_eq!(format_sse_event("e", ""), "event: e\ndata: \n\n");
    assert_eq!(format_sse_event("e", "x\n"), "event: e\ndata: x\ndata: \n\n");
}
