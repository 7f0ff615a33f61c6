//! Request-tracking middleware: request ids, tracing ids, latency headers and
//! request timeouts. The layers wrap an inner service; what each adds to a
//! request or response is decided here.

use crate::headers::{
    get_header_text, header_text, is_header_value_char, is_valid_header_value,
    is_visible_header_char, valid_header_value,
};
use crate::router::{jsonrpc_error, jsonrpc_error_body, GatewayResponse, JSON_CONTENT_TYPE};
use crate::strmap::StringMap;
use crate::text::{decimal, u128_to_decimal};
use std::time::Duration;
use vstd::prelude::*;

verus! {

/// Header carrying the response latency in microseconds.
pub const X_RESPONSE_TIME_US: &'static str = "x-response-time-us";

/// Header carrying the request id.
pub const X_REQUEST_ID: &'static str = "x-request-id";

/// Layer recording the response latency in microseconds.
#[derive(Debug, Clone, Copy, Default)]
pub struct LatencyTrackingLayer;

/// Service appending the latency header to the inner service's responses.
#[derive(Debug, Clone)]
pub struct LatencyTrackingService<S> {
    /// The wrapped service.
    pub inner: S,
}

impl LatencyTrackingLayer {
    /// Creates a new `LatencyTrackingLayer`.
    pub fn new() -> (r: Self) {
        LatencyTrackingLayer
    }

    /// Wraps `inner`.
    pub fn layer<S>(&self, inner: S) -> (r: LatencyTrackingService<S>)
        ensures
            r.inner == inner,
    {
        LatencyTrackingService { inner }
    }
}

/// The latency header value for `elapsed_us` microseconds: its decimal digits.
pub fn response_time_value(elapsed_us: u128) -> (r: String)
    ensures
        r@ == decimal(elapsed_us as nat),
{
    u128_to_decimal(elapsed_us)
}

/// Records the latency on a response: `x-response-time-us` is set to the
/// elapsed microseconds in decimal.
pub fn set_response_time(headers: &mut StringMap, elapsed_us: u128)
    ensures
        final(headers)@ == old(headers)@.insert(X_RESPONSE_TIME_US@, decimal(elapsed_us as nat)),
{
    let v = response_time_value(elapsed_us);
    headers.insert(String::from_str(X_RESPONSE_TIME_US), v);
}

/// Layer generating or propagating request ids.
#[derive(Debug, Clone, Copy, Default)]
pub struct RequestIdLayer;

/// Service setting the request id on requests and responses.
#[derive(Debug, Clone)]
pub struct RequestIdService<S> {
    /// The wrapped service.
    pub inner: S,
}

impl RequestIdLayer {
    /// Creates a new `RequestIdLayer`.
    pub fn new() -> (r: Self) {
        RequestIdLayer
    }

    /// Wraps `inner`.
    pub fn layer<S>(&self, inner: S) -> (r: RequestIdService<S>)
        ensures
            r.inner == inner,
    {
        RequestIdService { inner }
    }
}

/// The request id of a request: the text of its `x-request-id` header, else the
/// freshly generated id; `req-fallback` if that is not an acceptable header value.
pub open spec fn spec_request_id(headers: Map<Seq<char>, Seq<char>>, fresh: Seq<char>) -> Seq<
    char,
> {
    let id = match header_text(headers, X_REQUEST_ID@) {
        Some(t) => t,
        None => fresh,
    };
    if is_valid_header_value(id) {
        id
    } else {
        "req-fallback"@
    }
}

/// Chooses the request id set on the request and echoed on the response.
pub fn resolve_request_id(headers: &StringMap, fresh_id: &str) -> (r: String)
    ensures
        r@ == spec_request_id(headers@, fresh_id@),
{
    let id = match get_header_text(headers, X_REQUEST_ID) {
        Some(t) => t.clone(),
        None => String::from_str(fresh_id),
    };
    if valid_header_value(id.as_str()) {
        id
    } else {
        String::from_str("req-fallback")
    }
}

/// Tags a request with its id (see `spec_request_id`): sets `x-request-id` on
/// its headers and returns the id, which the response carries back.
pub fn tag_request(headers: &mut StringMap, fresh_id: &str) -> (id: String)
    ensures
        id@ == spec_request_id(old(headers)@, fresh_id@),
        final(headers)@ == old(headers)@.insert(X_REQUEST_ID@, id@),
{
    let id = resolve_request_id(headers, fresh_id);
    headers.insert(String::from_str(X_REQUEST_ID), id.clone());
    id
}

/// Echoes the request id on a response.
pub fn echo_request_id(headers: &mut StringMap, id: &str)
    ensures
        final(headers)@ == old(headers)@.insert(X_REQUEST_ID@, id@),
{
    headers.insert(String::from_str(X_REQUEST_ID), String::from_str(id));
}

/// A request that already carries an `x-request-id` keeps it: the id tagged on
/// the request, and echoed on its response, is that header's text. Without one
/// it gets the fresh id, when that is an acceptable header value.
pub proof fn law_request_id_kept(headers: Map<Seq<char>, Seq<char>>, fresh: Seq<char>)
    ensures
        header_text(headers, X_REQUEST_ID@) matches Some(t) ==> spec_request_id(headers, fresh)
            == t,
        header_text(headers, X_REQUEST_ID@) is None && is_valid_header_value(fresh)
            ==> spec_request_id(headers, fresh) == fresh,
{
    if let Some(t) = header_text(headers, X_REQUEST_ID@) {
        assert forall|i: int| 0 <= i < t.len() implies is_header_value_char(#[trigger] t[i]) by {
            assert(is_visible_header_char(t[i]));
        }
    }
}

/// Layer instrumenting requests with a tracing span.
#[derive(Debug, Clone, Copy, Default)]
pub struct TracingLayer;

/// Service running the inner service inside a `mcp_request` span.
#[derive(Debug, Clone)]
pub struct TracingService<S> {
    /// The wrapped service.
    pub inner: S,
}

impl TracingLayer {
    /// Creates a new `TracingLayer`.
    pub fn new() -> (r: Self) {
        TracingLayer
    }

    /// Wraps `inner`.
    pub fn layer<S>(&self, inner: S) -> (r: TracingService<S>)
        ensures
            r.inner == inner,
    {
        TracingService { inner }
    }
}

/// The request id recorded on the tracing span: the `x-request-id` header text,
/// or `unknown`.
pub fn span_request_id(headers: &StringMap) -> (r: String)
    ensures
        r@ == (match header_text(headers@, X_REQUEST_ID@) {
            Some(t) => t,
            None => "unknown"@,
        }),
{
    match get_header_text(headers, X_REQUEST_ID) {
        Some(t) => t.clone(),
        None => String::from_str("unknown"),
    }
}

/// Layer bounding the time the inner service may take.
#[derive(Debug, Clone, Copy)]
pub struct TimeoutLayer {
    timeout_duration: Duration,
}

/// Service answering with a gateway timeout when the inner service is too slow.
#[derive(Debug)]
pub struct TimeoutService<S> {
    /// The wrapped service.
    pub inner: S,
    /// The time allowed.
    pub timeout_duration: Duration,
}

impl<S: Clone> Clone for TimeoutService<S> {
    /// A copy wrapping a clone of the inner service, allowing the same time.
    fn clone(&self) -> (r: Self)
        ensures
            r.timeout_duration == self.timeout_duration,
    {
        TimeoutService { inner: self.inner.clone(), timeout_duration: self.timeout_duration }
    }
}

impl TimeoutLayer {
    /// Creates a new `TimeoutLayer` allowing `timeout_duration`.
    pub fn new(timeout_duration: Duration) -> (r: Self)
        ensures
            r.timeout() == timeout_duration,
    {
        TimeoutLayer { timeout_duration }
    }

    /// The time allowed.
    pub closed spec fn timeout(&self) -> Duration {
        self.timeout_duration
    }

    /// Wraps `inner`, allowing this layer's time.
    pub fn layer<S>(&self, inner: S) -> (r: TimeoutService<S>)
        ensures
            r.inner == inner,
            r.timeout_duration == self.timeout(),
    {
        TimeoutService { inner, timeout_duration: self.timeout_duration }
    }
}

/// The answer sent when the inner service does not finish in time: 504 with a
/// JSON-RPC error `-32011`.
pub fn timeout_response() -> (r: GatewayResponse)
    ensures
        r.status == 504,
        r.content_type@ == JSON_CONTENT_TYPE@,
        r.body@ == jsonrpc_error_body("-32011"@, "Upstream request timeout exceeded"@, "null"@),
{
    GatewayResponse {
        status: 504,
        content_type: String::from_str(JSON_CONTENT_TYPE),
        body: jsonrpc_error("-32011", "Upstream request timeout exceeded", "null"),
    }
}

} // verus!
