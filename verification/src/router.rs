//! Request routing and the guardrail pipeline's decisions.
//!
//! The gateway answers a few endpoints itself, resolves the upstream of every
//! other request from its route table, and runs each proxied request through the
//! attached guardrail engines in a fixed order. The engines' work (identity
//! extraction, rate limiting, scanning, approval, ...) happens outside; this
//! module decides, from each engine's answer, what is asked next, when the
//! request is refused and with which answer, and when it is forwarded.

use crate::config::RouteConfig;
use crate::headers::{is_valid_header_value, valid_header_value};
use crate::sse::{apply_sse_headers, SSE_CONTENT_TYPE};
use crate::strmap::{entries_map, StringMap};
use crate::text::{
    decimal, is_prefix, join, join_strings, saturating_u64, starts_with, str_eq, u64_to_decimal,
};
use vstd::prelude::*;

verus! {

// ---------------------------------------------------------------------------
// Endpoints answered by the gateway itself
// ---------------------------------------------------------------------------

/// The endpoint a request path addresses.
pub enum Endpoint {
    /// `GET /health`.
    Health,
    /// `GET /metrics`: Prometheus exposition.
    Metrics,
    /// `GET /v1/proofs/root`: the audit Merkle root.
    ProofRoot,
    /// `GET /v1/proofs/{request_id}`: the audit proof of one request.
    ProofByRequestId(String),
    /// Anything else: proxied upstream.
    Proxied,
}

/// Which endpoint `path` addresses: the three fixed paths, `/v1/proofs/` followed
/// by a non-empty request id, or the proxy.
pub open spec fn spec_endpoint_kind(path: Seq<char>) -> int {
    if path == "/health"@ {
        0
    } else if path == "/metrics"@ {
        1
    } else if path == "/v1/proofs/root"@ {
        2
    } else if is_prefix("/v1/proofs/"@, path) && path.len() > "/v1/proofs/"@.len() {
        3
    } else {
        4
    }
}

/// Classifies a request path.
pub fn classify_endpoint(path: &str) -> (r: Endpoint)
    ensures
        spec_endpoint_kind(path@) == 0 <==> r is Health,
        spec_endpoint_kind(path@) == 1 <==> r is Metrics,
        spec_endpoint_kind(path@) == 2 <==> r is ProofRoot,
        spec_endpoint_kind(path@) == 4 <==> r is Proxied,
        spec_endpoint_kind(path@) == 3 <==> r is ProofByRequestId,
        r matches Endpoint::ProofByRequestId(id) ==> id@ == path@.subrange(
            "/v1/proofs/"@.len() as int,
            path@.len() as int,
        ),
{
    if str_eq(path, "/health") {
        Endpoint::Health
    } else if str_eq(path, "/metrics") {
        Endpoint::Metrics
    } else if str_eq(path, "/v1/proofs/root") {
        Endpoint::ProofRoot
    } else if starts_with(path, "/v1/proofs/") {
        let plen = "/v1/proofs/".unicode_len();
        let n = path.unicode_len();
        if n > plen {
            Endpoint::ProofByRequestId(String::from_str(path.substring_char(plen, n)))
        } else {
            Endpoint::Proxied
        }
    } else {
        Endpoint::Proxied
    }
}

/// An answer the gateway produces itself.
pub struct GatewayResponse {
    /// HTTP status code.
    pub status: u16,
    /// `content-type` header value.
    pub content_type: String,
    /// Response body.
    pub body: String,
}

/// Content type of JSON answers.
pub const JSON_CONTENT_TYPE: &'static str = "application/json";

/// Content type of the Prometheus exposition.
pub const METRICS_CONTENT_TYPE: &'static str = "text/plain; version=0.0.4; charset=utf-8";

fn json_response(status: u16, body: String) -> (r: GatewayResponse)
    ensures
        r.status == status,
        r.content_type@ == JSON_CONTENT_TYPE@,
        r.body@ == body@,
{
    GatewayResponse { status, content_type: String::from_str(JSON_CONTENT_TYPE), body }
}

/// The `/health` answer.
pub fn health_response() -> (r: GatewayResponse)
    ensures
        r.status == 200,
        r.content_type@ == JSON_CONTENT_TYPE@,
        r.body@ == "{\"status\":\"ok\",\"gateway\":\"AegisMCP-Gateway\"}"@,
{
    json_response(200, String::from_str("{\"status\":\"ok\",\"gateway\":\"AegisMCP-Gateway\"}"))
}

/// The `/metrics` answer around the rendered exposition text.
pub fn metrics_response(exposition: String) -> (r: GatewayResponse)
    ensures
        r.status == 200,
        r.content_type@ == METRICS_CONTENT_TYPE@,
        r.body@ == exposition@,
{
    GatewayResponse {
        status: 200,
        content_type: String::from_str(METRICS_CONTENT_TYPE),
        body: exposition,
    }
}

/// The `/v1/proofs/root` answer: the root (if the ledger has one) and the leaf count.
pub fn proof_root_response(root: Option<&str>, leaf_count: u64) -> (r: GatewayResponse)
    ensures
        r.status == 200,
        r.content_type@ == JSON_CONTENT_TYPE@,
        r.body@ == (match root {
            Some(h) => "{\"merkle_root\":\""@ + h@ + "\",\"leaf_count\":"@ + decimal(
                leaf_count as nat,
            ) + "}"@,
            None => "{\"merkle_root\":null,\"leaf_count\":0}"@,
        }),
{
    match root {
        Some(h) => {
            let mut body = String::from_str("{\"merkle_root\":\"");
            body.append(h);
            body.append("\",\"leaf_count\":");
            let count = u64_to_decimal(leaf_count);
            body.append(count.as_str());
            body.append("}");
            json_response(200, body)
        },
        None => json_response(200, String::from_str("{\"merkle_root\":null,\"leaf_count\":0}")),
    }
}

/// The answer to a proof request whose proof was found: the proof serialised
/// as JSON, or an error object when serialisation failed (still status 200).
pub fn proof_found_response(serialized: Result<String, String>) -> (r: GatewayResponse)
    ensures
        r.status == 200,
        r.content_type@ == JSON_CONTENT_TYPE@,
        r.body@ == (match serialized {
            Ok(json) => json@,
            Err(e) => "{\"error\":\"serialization failed: "@ + e@ + "\"}"@,
        }),
{
    match serialized {
        Ok(json) => json_response(200, json),
        Err(e) => {
            let mut body = String::from_str("{\"error\":\"serialization failed: ");
            body.append(e.as_str());
            body.append("\"}");
            json_response(200, body)
        },
    }
}

/// The answer to a proof request for an unknown request id.
pub fn proof_not_found_response(error: &str) -> (r: GatewayResponse)
    ensures
        r.status == 404,
        r.content_type@ == JSON_CONTENT_TYPE@,
        r.body@ == "{\"error\":\"proof not found: "@ + error@ + "\"}"@,
{
    let mut body = String::from_str("{\"error\":\"proof not found: ");
    body.append(error);
    body.append("\"}");
    json_response(404, body)
}

/// The answer to a proof request when no audit ledger is attached.
pub fn ledger_not_configured_response() -> (r: GatewayResponse)
    ensures
        r.status == 503,
        r.content_type@ == JSON_CONTENT_TYPE@,
        r.body@ == "{\"error\":\"audit ledger not configured\"}"@,
{
    json_response(503, String::from_str("{\"error\":\"audit ledger not configured\"}"))
}

// ---------------------------------------------------------------------------
// Route resolution
// ---------------------------------------------------------------------------

/// A route serves `path` when it is enabled and its path is a prefix of `path`.
pub open spec fn route_serves(route: RouteConfig, path: Seq<char>) -> bool {
    route.enabled && is_prefix(route.path@, path)
}

/// The upstream of a request: that of the first route serving its path, else
/// the fallback upstream.
pub open spec fn spec_resolve_upstream(
    routes: Seq<RouteConfig>,
    path: Seq<char>,
    fallback: Seq<char>,
) -> Seq<char>
    decreases routes.len(),
{
    if routes.len() == 0 {
        fallback
    } else if route_serves(routes[0], path) {
        routes[0].upstream_url@
    } else {
        spec_resolve_upstream(routes.drop_first(), path, fallback)
    }
}

/// Resolves the upstream URL for `path` from the route table.
pub fn resolve_upstream(routes: &Vec<RouteConfig>, path: &str, fallback: &str) -> (r: String)
    ensures
        r@ == spec_resolve_upstream(routes@, path@, fallback@),
{
    let mut i: usize = 0;
    assert(routes@.skip(0) =~= routes@);
    while i < routes.len()
        invariant
            i <= routes@.len(),
            spec_resolve_upstream(routes@, path@, fallback@) == spec_resolve_upstream(
                routes@.skip(i as int),
                path@,
                fallback@,
            ),
        decreases routes@.len() - i,
    {
        let route = &routes[i];
        assert(routes@.skip(i as int)[0] == routes@[i as int]);
        assert(routes@.skip(i as int).drop_first() =~= routes@.skip(i + 1));
        if route.enabled && starts_with(path, route.path.as_str()) {
            return route.upstream_url.clone();
        }
        i = i + 1;
    }
    String::from_str(fallback)
}

/// The upstream chosen is the first serving route's, and no earlier route serves
/// the path; with no serving route it is the fallback.
pub proof fn law_first_matching_route_wins(
    routes: Seq<RouteConfig>,
    path: Seq<char>,
    fallback: Seq<char>,
)
    ensures
        (forall|i: int| 0 <= i < routes.len() ==> !route_serves(#[trigger] routes[i], path))
            ==> spec_resolve_upstream(routes, path, fallback) == fallback,
        forall|i: int|
            0 <= i < routes.len() && route_serves(#[trigger] routes[i], path) && (forall|j: int|
                0 <= j < i ==> !route_serves(routes[j], path)) ==> spec_resolve_upstream(
                routes,
                path,
                fallback,
            ) == routes[i].upstream_url@,
    decreases routes.len(),
{
    if routes.len() > 0 {
        let rest = routes.drop_first();
        law_first_matching_route_wins(rest, path, fallback);
        assert forall|i: int| 0 <= i < rest.len() implies rest[i] == routes[i + 1] by {}
        assert forall|i: int|
            0 <= i < routes.len() && route_serves(#[trigger] routes[i], path) && (forall|j: int|
                0 <= j < i ==> !route_serves(routes[j], path)) implies spec_resolve_upstream(
            routes,
            path,
            fallback,
        ) == routes[i].upstream_url@ by {
            if i > 0 {
                assert(!route_serves(routes[0], path));
                assert(rest[i - 1] == routes[i]);
                assert forall|j: int| 0 <= j < i - 1 implies !route_serves(rest[j], path) by {
                    assert(rest[j] == routes[j + 1]);
                }
            }
        }
        if forall|i: int| 0 <= i < routes.len() ==> !route_serves(#[trigger] routes[i], path) {
            assert(!route_serves(routes[0], path));
            assert forall|i: int| 0 <= i < rest.len() implies !route_serves(#[trigger] rest[i], path) by {
                assert(rest[i] == routes[i + 1]);
            }
        }
    }
}

} // verus!

verus! {

// ---------------------------------------------------------------------------
// JSON-RPC error answers
// ---------------------------------------------------------------------------

/// A JSON-RPC 2.0 error object with the given code, message and id, as the
/// gateway writes it (the message is inserted as it is).
pub open spec fn jsonrpc_error_body(code: Seq<char>, message: Seq<char>, id: Seq<char>) -> Seq<
    char,
> {
    "{\"jsonrpc\":\"2.0\",\"error\":{\"code\":"@ + code + ",\"message\":\""@ + message
        + "\"},\"id\":"@ + id + "}"@
}

/// Builds a JSON-RPC 2.0 error object.
pub fn jsonrpc_error(code: &str, message: &str, id: &str) -> (r: String)
    ensures
        r@ == jsonrpc_error_body(code@, message@, id@),
{
    let mut r = String::from_str("{\"jsonrpc\":\"2.0\",\"error\":{\"code\":");
    r.append(code);
    r.append(",\"message\":\"");
    r.append(message);
    r.append("\"},\"id\":");
    r.append(id);
    r.append("}");
    r
}

/// Why the gateway refused a request.
#[derive(Debug, Clone, Copy, PartialEq, Eq)]
pub enum DenialKind {
    /// The identity extractor rejected the credentials.
    Authentication,
    /// The agent's request quota is exhausted.
    RateLimit,
    /// The prompt injection detector found a critical injection.
    PromptInjection,
    /// A human approver turned down a high-risk tool call.
    HitlRejected,
    /// The loop breaker detected a runaway execution loop.
    LoopDetected,
    /// The tool authorization engine denied the call.
    UnauthorizedTool,
    /// A WASM guardrail plugin denied the call.
    WasmPolicy,
    /// The upstream server could not be reached.
    UpstreamUnreachable,
    /// The request body exceeds the size limit.
    PayloadTooLarge,
    /// The request body is not JSON.
    ParseError,
}

/// A refusal: the answer sent to the client and the audit record written for it.
pub struct Denial {
    /// Why the request was refused.
    pub kind: DenialKind,
    /// HTTP status of the answer.
    pub status: u16,
    /// JSON-RPC error body of the answer.
    pub body: String,
    /// Tool name recorded in the audit ledger.
    pub audit_tool: String,
    /// Decision recorded in the audit ledger.
    pub audit_decision: String,
}

/// JSON-RPC error code of each refusal.
pub open spec fn denial_code(kind: DenialKind) -> Seq<char> {
    match kind {
        DenialKind::Authentication => "-32002"@,
        DenialKind::RateLimit => "-32004"@,
        DenialKind::PromptInjection => "-32003"@,
        DenialKind::HitlRejected => "-32005"@,
        DenialKind::LoopDetected => "-32004"@,
        DenialKind::UnauthorizedTool => "-32001"@,
        DenialKind::WasmPolicy => "-32001"@,
        DenialKind::UpstreamUnreachable => "-32010"@,
        DenialKind::PayloadTooLarge => "-32000"@,
        DenialKind::ParseError => "-32700"@,
    }
}

/// HTTP status of each refusal: 401 for failed authentication, 502 for an
/// unreachable upstream, 413 for an oversized body, 400 for a body that is not
/// JSON, 200 otherwise.
pub open spec fn denial_status(kind: DenialKind) -> u16 {
    match kind {
        DenialKind::Authentication => 401,
        DenialKind::UpstreamUnreachable => 502,
        DenialKind::PayloadTooLarge => 413,
        DenialKind::ParseError => 400,
        _ => 200,
    }
}

/// Message prefix of each refusal; the detail follows it.
pub open spec fn denial_prefix(kind: DenialKind) -> Seq<char> {
    match kind {
        DenialKind::Authentication => "Authentication Failed: "@,
        DenialKind::RateLimit => "Rate Limit Exceeded: Max request quota exceeded for agent"@,
        DenialKind::PromptInjection => "Critical Prompt Injection Attack Detected: "@,
        DenialKind::HitlRejected => "HITL Approval Required: "@,
        DenialKind::LoopDetected => "Execution Loop Detected: "@,
        DenialKind::UnauthorizedTool => "Unauthorized Tool Call: "@,
        DenialKind::WasmPolicy => "Security Policy Denial: "@,
        DenialKind::UpstreamUnreachable => "Upstream server unreachable"@,
        DenialKind::PayloadTooLarge => "Payload Too Large"@,
        DenialKind::ParseError => "Parse error"@,
    }
}

/// Audit decision of each refusal.
pub open spec fn denial_decision(kind: DenialKind) -> Seq<char> {
    match kind {
        DenialKind::Authentication => "DENY_AUTH_FAILED"@,
        DenialKind::RateLimit => "DENY_RATE_LIMIT"@,
        DenialKind::PromptInjection => "DENY_PROMPT_INJECTION"@,
        DenialKind::HitlRejected => "DENY_HITL_REJECTED"@,
        DenialKind::LoopDetected => "DENY_LOOP_BREAKER"@,
        DenialKind::UnauthorizedTool => "DENY_UNAUTHORIZED_TOOL"@,
        DenialKind::WasmPolicy => "DENY_WASM_POLICY"@,
        DenialKind::UpstreamUnreachable => "DENY_UPSTREAM_UNREACHABLE"@,
        DenialKind::PayloadTooLarge => "DENY_PAYLOAD_TOO_LARGE"@,
        DenialKind::ParseError => "DENY_PARSE_ERROR"@,
    }
}

/// `d` is the refusal of kind `kind` with message detail `detail`, JSON-RPC id
/// text `id` and audit tool name `tool`.
pub open spec fn is_denial(
    d: Denial,
    kind: DenialKind,
    detail: Seq<char>,
    id: Seq<char>,
    tool: Seq<char>,
) -> bool {
    &&& d.kind == kind
    &&& d.status == denial_status(kind)
    &&& d.body@ == jsonrpc_error_body(denial_code(kind), denial_prefix(kind) + detail, id)
    &&& d.audit_tool@ == tool
    &&& d.audit_decision@ == denial_decision(kind)
}

/// Builds the refusal of kind `kind`.
pub fn deny(kind: DenialKind, detail: &str, id: &str, tool: &str) -> (r: Denial)
    ensures
        is_denial(r, kind, detail@, id@, tool@),
{
    let (status, code, prefix, decision): (u16, &str, &str, &str) = match kind {
        DenialKind::Authentication => (401, "-32002", "Authentication Failed: ", "DENY_AUTH_FAILED"),
        DenialKind::RateLimit => (
            200,
            "-32004",
            "Rate Limit Exceeded: Max request quota exceeded for agent",
            "DENY_RATE_LIMIT",
        ),
        DenialKind::PromptInjection => (
            200,
            "-32003",
            "Critical Prompt Injection Attack Detected: ",
            "DENY_PROMPT_INJECTION",
        ),
        DenialKind::HitlRejected => (
            200,
            "-32005",
            "HITL Approval Required: ",
            "DENY_HITL_REJECTED",
        ),
        DenialKind::LoopDetected => (
            200,
            "-32004",
            "Execution Loop Detected: ",
            "DENY_LOOP_BREAKER",
        ),
        DenialKind::UnauthorizedTool => (
            200,
            "-32001",
            "Unauthorized Tool Call: ",
            "DENY_UNAUTHORIZED_TOOL",
        ),
        DenialKind::WasmPolicy => (200, "-32001", "Security Policy Denial: ", "DENY_WASM_POLICY"),
        DenialKind::UpstreamUnreachable => (
            502,
            "-32010",
            "Upstream server unreachable",
            "DENY_UPSTREAM_UNREACHABLE",
        ),
        DenialKind::PayloadTooLarge => (
            413,
            "-32000",
            "Payload Too Large",
            "DENY_PAYLOAD_TOO_LARGE",
        ),
        DenialKind::ParseError => (400, "-32700", "Parse error", "DENY_PARSE_ERROR"),
    };
    let mut message = String::from_str(prefix);
    message.append(detail);
    let body = jsonrpc_error(code, message.as_str(), id);
    Denial {
        kind,
        status,
        body,
        audit_tool: String::from_str(tool),
        audit_decision: String::from_str(decision),
    }
}

/// The metrics a refusal records besides its audit entry.
pub struct DenialMetrics {
    /// Security violation type counted, if any.
    pub violation: Option<String>,
    /// Route label of the HTTP request counted (with the refusal's status), if any.
    pub http_route: Option<String>,
    /// Guardrail layer whose latency is sampled, if any.
    pub latency_layer: Option<String>,
}

/// Which metrics each refusal records: a failed authentication counts an
/// `auth_failed` violation and an HTTP request on route `auth`; an exhausted
/// quota counts a `rate_limit_exceeded` violation and samples the
/// `rate_limiter` latency; the other refusals record no metric.
pub fn denial_metrics(kind: DenialKind) -> (r: DenialMetrics)
    ensures
        opt_view(r.violation) == (match kind {
            DenialKind::Authentication => Some("auth_failed"@),
            DenialKind::RateLimit => Some("rate_limit_exceeded"@),
            _ => None,
        }),
        opt_view(r.http_route) == (match kind {
            DenialKind::Authentication => Some("auth"@),
            _ => None,
        }),
        opt_view(r.latency_layer) == (match kind {
            DenialKind::RateLimit => Some("rate_limiter"@),
            _ => None,
        }),
{
    match kind {
        DenialKind::Authentication => DenialMetrics {
            violation: Some(String::from_str("auth_failed")),
            http_route: Some(String::from_str("auth")),
            latency_layer: None,
        },
        DenialKind::RateLimit => DenialMetrics {
            violation: Some(String::from_str("rate_limit_exceeded")),
            http_route: None,
            latency_layer: Some(String::from_str("rate_limiter")),
        },
        _ => DenialMetrics { violation: None, http_route: None, latency_layer: None },
    }
}

/// The refusal sent when the upstream cannot be reached; `route_name` is the
/// JSON-RPC method of the request, or its path when it carried none.
pub fn upstream_unreachable_denial(route_name: &str) -> (r: Denial)
    ensures
        is_denial(r, DenialKind::UpstreamUnreachable, ""@, "null"@, route_name@),
{
    deny(DenialKind::UpstreamUnreachable, "", "null", route_name)
}

} // verus!

verus! {

// ---------------------------------------------------------------------------
// The guardrail pipeline
// ---------------------------------------------------------------------------

/// Which guardrail engines are attached to the router.
#[derive(Debug, Clone, Copy, PartialEq, Eq)]
pub struct AttachedGuards {
    /// Agent identity extractor (authentication).
    pub identity_extractor: bool,
    /// Per-agent rate limiter.
    pub rate_limiter: bool,
    /// Enterprise token translator for upstream credentials.
    pub token_translator: bool,
    /// Prompt injection detector.
    pub prompt_injection_detector: bool,
    /// Human-in-the-loop approval engine.
    pub hitl_engine: bool,
    /// Execution loop breaker.
    pub loop_breaker: bool,
    /// Tool authorization engine.
    pub tool_authz_engine: bool,
    /// WASM guardrail plugin runner.
    pub wasm_runner: bool,
}

/// Largest request body the gateway accepts: 4 MiB.
pub const MAX_BODY_BYTES: u64 = 4194304;

/// What a request body is, read as JSON-RPC.
pub enum RpcParse {
    /// A JSON-RPC request.
    Call(RpcCall),
    /// JSON, but not a JSON-RPC request.
    NotRpc,
    /// Not JSON at all.
    Malformed,
}

/// A JSON-RPC call found in a request body.
pub struct RpcCall {
    /// The called method.
    pub method: String,
    /// The request id serialised as JSON (`null` when absent).
    pub id_json: String,
}

/// A question the pipeline puts to an engine (or, for the body, to the connection).
pub enum GuardQuery {
    /// Authenticate the request's credentials.
    ExtractIdentity,
    /// Check the quota of the agent (`None`: the anonymous agent).
    CheckRateLimit { agent_id: Option<String> },
    /// Translate the agent's credentials for the upstream.
    TranslateToken,
    /// Read the whole request body.
    ReadBody,
    /// Scan the body for prompt injection.
    ScanPrompt,
    /// Parse the body as a JSON-RPC request.
    ParseRpc,
    /// Ask whether the method is a high-risk tool.
    CheckHighRisk { method: String },
    /// Ask a human to approve the tool call.
    RequestApproval,
    /// Record the call with the loop breaker under `session_key`.
    CheckLoop { session_key: String },
    /// Authorize the tool call (`anonymous`: no identity was extracted).
    CheckAuthorization { anonymous: bool },
    /// Evaluate the WASM guardrail plugins on the call.
    EvaluateWasm { anonymous: bool },
}

/// The answer to the previous question (or `Begin`, to start).
pub enum GuardAnswer {
    /// Start processing a proxied request.
    Begin,
    /// Credentials accepted for this agent.
    IdentityExtracted { agent_id: String },
    /// Credentials rejected, with the extractor's error text.
    IdentityRejected { error: String },
    /// Whether the request fits the agent's quota.
    RateLimitChecked { allowed: bool },
    /// The translated upstream token, if translation succeeded.
    TokenTranslated { token: Option<String> },
    /// The size of the body in bytes.
    BodyRead { size: u64 },
    /// Whether a critical injection was found, and the matched signatures.
    PromptScanned { critical: bool, signatures: Vec<String> },
    /// What the body is as JSON-RPC.
    RpcParsed { parse: RpcParse },
    /// Whether the method is high-risk.
    HighRiskChecked { high_risk: bool },
    /// The rejection reason, if the approver turned the call down.
    ApprovalDecided { rejection: Option<String> },
    /// The loop breaker's error, if a loop was detected.
    LoopChecked { loop_error: Option<String> },
    /// The denial reason, if authorization was denied.
    AuthorizationChecked { denial: Option<String> },
    /// The denial reason, if a plugin denied the call.
    WasmEvaluated { denial: Option<String> },
}

/// What the pipeline does next.
pub enum GuardStep {
    /// Put a question to an engine.
    Ask(GuardQuery),
    /// Refuse the request.
    Deny(Denial),
    /// Forward the request upstream.
    Forward,
}

/// Where the pipeline stands: which answer it waits for.
#[derive(Debug, Clone, Copy, PartialEq, Eq)]
pub enum GuardPhase {
    /// Not started.
    Start,
    /// Waiting for the identity extractor.
    Identity,
    /// Waiting for the rate limiter.
    RateLimit,
    /// Waiting for the token translator.
    Token,
    /// Waiting for the body.
    Body,
    /// Waiting for the prompt injection detector.
    Prompt,
    /// Waiting for the JSON-RPC parse.
    Rpc,
    /// Waiting for the high-risk check.
    HighRisk,
    /// Waiting for a human approval.
    Approval,
    /// Waiting for the loop breaker.
    Loop,
    /// Waiting for tool authorization.
    Authz,
    /// Waiting for the WASM plugins.
    Wasm,
    /// Refused or forwarded.
    Finished,
}

/// An entry of the audit ledger.
pub struct AuditEntry {
    /// Request id the entry is filed under.
    pub request_id: String,
    /// Wall-clock time of the decision, in nanoseconds since the Unix epoch.
    pub timestamp_ns: u64,
    /// The agent, or `anonymous`.
    pub agent_id: String,
    /// The tool (or pipeline stage) the decision concerns.
    pub tool_name: String,
    /// The decision, e.g. `ALLOW` or `DENY_RATE_LIMIT`.
    pub decision: String,
    /// Time spent on the request so far, in microseconds.
    pub latency_us: u64,
}

/// The pipeline's state for one request.
pub struct GuardState {
    /// The answer awaited.
    pub phase: GuardPhase,
    /// The authenticated agent, if any.
    pub agent_id: Option<String>,
    /// The translated upstream token, if any.
    pub upstream_token: Option<String>,
    /// The JSON-RPC call in the body, if any.
    pub rpc: Option<RpcCall>,
}

/// Position of each phase in the pipeline's order.
pub open spec fn phase_rank(p: GuardPhase) -> int {
    match p {
        GuardPhase::Start => 0,
        GuardPhase::Identity => 1,
        GuardPhase::RateLimit => 2,
        GuardPhase::Token => 3,
        GuardPhase::Body => 4,
        GuardPhase::Prompt => 5,
        GuardPhase::Rpc => 6,
        GuardPhase::HighRisk => 7,
        GuardPhase::Approval => 8,
        GuardPhase::Loop => 9,
        GuardPhase::Authz => 10,
        GuardPhase::Wasm => 11,
        GuardPhase::Finished => 12,
    }
}

/// `answer` is the kind of answer `phase` waits for.
pub open spec fn answer_fits(phase: GuardPhase, answer: GuardAnswer) -> bool {
    match phase {
        GuardPhase::Start => answer is Begin,
        GuardPhase::Identity => answer is IdentityExtracted || answer is IdentityRejected,
        GuardPhase::RateLimit => answer is RateLimitChecked,
        GuardPhase::Token => answer is TokenTranslated,
        GuardPhase::Body => answer is BodyRead,
        GuardPhase::Prompt => answer is PromptScanned,
        GuardPhase::Rpc => answer is RpcParsed,
        GuardPhase::HighRisk => answer is HighRiskChecked,
        GuardPhase::Approval => answer is ApprovalDecided,
        GuardPhase::Loop => answer is LoopChecked,
        GuardPhase::Authz => answer is AuthorizationChecked,
        GuardPhase::Wasm => answer is WasmEvaluated,
        GuardPhase::Finished => false,
    }
}

/// The phase a step leads to: the phase of the question asked, or `Finished`.
pub open spec fn phase_of_step(step: GuardStep) -> GuardPhase {
    match step {
        GuardStep::Ask(q) => match q {
            GuardQuery::ExtractIdentity => GuardPhase::Identity,
            GuardQuery::CheckRateLimit { .. } => GuardPhase::RateLimit,
            GuardQuery::TranslateToken => GuardPhase::Token,
            GuardQuery::ReadBody => GuardPhase::Body,
            GuardQuery::ScanPrompt => GuardPhase::Prompt,
            GuardQuery::ParseRpc => GuardPhase::Rpc,
            GuardQuery::CheckHighRisk { .. } => GuardPhase::HighRisk,
            GuardQuery::RequestApproval => GuardPhase::Approval,
            GuardQuery::CheckLoop { .. } => GuardPhase::Loop,
            GuardQuery::CheckAuthorization { .. } => GuardPhase::Authz,
            GuardQuery::EvaluateWasm { .. } => GuardPhase::Wasm,
        },
        _ => GuardPhase::Finished,
    }
}

/// The view of an optional string.
pub open spec fn opt_view(o: Option<String>) -> Option<Seq<char>> {
    match o {
        Some(s) => Some(s@),
        None => None,
    }
}

/// The first step from `phase` on: the question of the first attached engine
/// from that phase onwards, reading the body once the request-level checks
/// are done, and forwarding once nothing is left to ask.
pub open spec fn first_step_from(
    guards: AttachedGuards,
    phase: GuardPhase,
    agent: Option<Seq<char>>,
    rpc: Option<Seq<char>>,
) -> GuardPhase
    decreases 12 - phase_rank(phase),
{
    match phase {
        GuardPhase::Identity => if guards.identity_extractor {
            GuardPhase::Identity
        } else {
            first_step_from(guards, GuardPhase::RateLimit, agent, rpc)
        },
        GuardPhase::RateLimit => if guards.rate_limiter {
            GuardPhase::RateLimit
        } else {
            first_step_from(guards, GuardPhase::Token, agent, rpc)
        },
        GuardPhase::Token => if guards.token_translator && agent is Some {
            GuardPhase::Token
        } else {
            GuardPhase::Body
        },
        GuardPhase::HighRisk => if rpc is None {
            GuardPhase::Finished
        } else if guards.hitl_engine {
            GuardPhase::HighRisk
        } else {
            first_step_from(guards, GuardPhase::Loop, agent, rpc)
        },
        GuardPhase::Loop => if guards.loop_breaker {
            GuardPhase::Loop
        } else {
            first_step_from(guards, GuardPhase::Authz, agent, rpc)
        },
        GuardPhase::Authz => if guards.tool_authz_engine {
            GuardPhase::Authz
        } else {
            first_step_from(guards, GuardPhase::Wasm, agent, rpc)
        },
        GuardPhase::Wasm => if guards.wasm_runner {
            GuardPhase::Wasm
        } else {
            GuardPhase::Finished
        },
        _ => phase,
    }
}

/// Whether the pipeline owes a question at `phase`: the request-level engines
/// when attached (token translation only for an authenticated agent), the body
/// always, and the per-call engines when attached and the body held a JSON-RPC
/// call.
pub open spec fn engine_due(
    guards: AttachedGuards,
    phase: GuardPhase,
    agent: Option<Seq<char>>,
    rpc: Option<Seq<char>>,
) -> bool {
    match phase {
        GuardPhase::Identity => guards.identity_extractor,
        GuardPhase::RateLimit => guards.rate_limiter,
        GuardPhase::Token => guards.token_translator && agent is Some,
        GuardPhase::Body => true,
        GuardPhase::HighRisk => rpc is Some && guards.hitl_engine,
        GuardPhase::Loop => rpc is Some && guards.loop_breaker,
        GuardPhase::Authz => rpc is Some && guards.tool_authz_engine,
        GuardPhase::Wasm => rpc is Some && guards.wasm_runner,
        _ => false,
    }
}

/// The pipeline neither skips an engine nor asks one that is not due: from any
/// point where it looks for the next question (the per-call checks only with a
/// JSON-RPC call at hand, as in every reachable state), it stops at the first phase
/// whose question is due, and it forwards (reaches `Finished`) only when no
/// question from that point on is due.
pub proof fn law_no_due_engine_skipped(
    guards: AttachedGuards,
    from: GuardPhase,
    agent: Option<Seq<char>>,
    rpc: Option<Seq<char>>,
)
    requires
        from == GuardPhase::Identity || from == GuardPhase::RateLimit || from
            == GuardPhase::Token || from == GuardPhase::HighRisk || from == GuardPhase::Loop
            || from == GuardPhase::Authz || from == GuardPhase::Wasm,
        (from == GuardPhase::Loop || from == GuardPhase::Authz || from == GuardPhase::Wasm)
            ==> rpc is Some,
    ensures
        ({
            let next = first_step_from(guards, from, agent, rpc);
            &&& phase_rank(from) <= phase_rank(next)
            &&& next == GuardPhase::Finished || engine_due(guards, next, agent, rpc)
            &&& forall|q: GuardPhase|
                phase_rank(from) <= phase_rank(q) < phase_rank(next) ==> !#[trigger] engine_due(
                    guards,
                    q,
                    agent,
                    rpc,
                )
        }),
    decreases 12 - phase_rank(from),
{
    let next = first_step_from(guards, from, agent, rpc);
    match from {
        GuardPhase::Identity => if !guards.identity_extractor {
            law_no_due_engine_skipped(guards, GuardPhase::RateLimit, agent, rpc);
        },
        GuardPhase::RateLimit => if !guards.rate_limiter {
            law_no_due_engine_skipped(guards, GuardPhase::Token, agent, rpc);
        },
        GuardPhase::Token => {},
        GuardPhase::HighRisk => if rpc is Some && !guards.hitl_engine {
            law_no_due_engine_skipped(guards, GuardPhase::Loop, agent, rpc);
        },
        GuardPhase::Loop => if !guards.loop_breaker {
            law_no_due_engine_skipped(guards, GuardPhase::Authz, agent, rpc);
        },
        GuardPhase::Authz => if !guards.tool_authz_engine {
            law_no_due_engine_skipped(guards, GuardPhase::Wasm, agent, rpc);
        },
        _ => {},
    }
    assert forall|q: GuardPhase|
        phase_rank(from) <= phase_rank(q) < phase_rank(next) implies !#[trigger] engine_due(
        guards,
        q,
        agent,
        rpc,
    ) by {
        if phase_rank(q) == phase_rank(from) {
            assert(q == from);
        }
    }
}

/// The session key the loop breaker records calls under: the agent id, or
/// `default-session` for an anonymous request.
pub open spec fn session_key(agent: Option<Seq<char>>) -> Seq<char> {
    match agent {
        Some(a) => a,
        None => "default-session"@,
    }
}

impl GuardState {
    /// The state of a request that has not entered the pipeline.
    pub fn new() -> (r: Self)
        ensures
            r.phase == GuardPhase::Start,
            r.agent_id is None,
            r.upstream_token is None,
            r.rpc is None,
    {
        GuardState { phase: GuardPhase::Start, agent_id: None, upstream_token: None, rpc: None }
    }

    /// The agent id recorded in the audit ledger: the authenticated agent, or
    /// `anonymous`.
    pub fn audit_agent_id(&self) -> (r: String)
        ensures
            r@ == (match self.agent_id {
                Some(a) => a@,
                None => "anonymous"@,
            }),
    {
        match &self.agent_id {
            Some(a) => a.clone(),
            None => String::from_str("anonymous"),
        }
    }

    /// The route name recorded for the request: its JSON-RPC method, or its path.
    pub fn route_name(&self, path: &str) -> (r: String)
        ensures
            r@ == (match self.rpc {
                Some(c) => c.method@,
                None => path@,
            }),
    {
        match &self.rpc {
            Some(c) => c.method.clone(),
            None => String::from_str(path),
        }
    }

    /// The audit ledger entry for the request's outcome: the ledger's fixed
    /// request id `req-audit-log`, the wall-clock time in nanoseconds and the
    /// latency in microseconds (each saturating at `u64::MAX`), the audit agent
    /// id, the tool name and the decision.
    pub fn audit_entry(&self, tool_name: &str, decision: &str, now_ns: u128, elapsed_us: u128) -> (r:
        AuditEntry)
        ensures
            r.request_id@ == "req-audit-log"@,
            r.timestamp_ns == (if now_ns > u64::MAX as u128 {
                u64::MAX
            } else {
                now_ns as u64
            }),
            r.agent_id@ == (match self.agent_id {
                Some(a) => a@,
                None => "anonymous"@,
            }),
            r.tool_name@ == tool_name@,
            r.decision@ == decision@,
            r.latency_us == (if elapsed_us > u64::MAX as u128 {
                u64::MAX
            } else {
                elapsed_us as u64
            }),
    {
        AuditEntry {
            request_id: String::from_str("req-audit-log"),
            timestamp_ns: saturating_u64(now_ns),
            agent_id: self.audit_agent_id(),
            tool_name: String::from_str(tool_name),
            decision: String::from_str(decision),
            latency_us: saturating_u64(elapsed_us),
        }
    }

    /// Asks the first attached engine from `from` on (see `first_step_from`).
    fn proceed(&mut self, guards: AttachedGuards, from: GuardPhase) -> (step: GuardStep)
        requires
            from == GuardPhase::Identity || from == GuardPhase::RateLimit || from
                == GuardPhase::Token || from == GuardPhase::HighRisk || from == GuardPhase::Loop
                || from == GuardPhase::Authz || from == GuardPhase::Wasm,
            (from == GuardPhase::Loop || from == GuardPhase::Authz || from == GuardPhase::Wasm)
                ==> old(self).rpc is Some,
        ensures
            final(self).wf(),
            phase_rank(final(self).phase) >= phase_rank(from),
            phase_rank(from) <= 3 ==> phase_rank(final(self).phase) <= 4,
            final(self).agent_id == old(self).agent_id,
            final(self).upstream_token == old(self).upstream_token,
            final(self).rpc == old(self).rpc,
            final(self).phase == phase_of_step(step),
            phase_of_step(step) == first_step_from(
                guards,
                from,
                opt_view(old(self).agent_id),
                match old(self).rpc {
                    Some(c) => Some(c.method@),
                    None => None,
                },
            ),
            !(step is Deny),
            step matches GuardStep::Ask(GuardQuery::CheckRateLimit { agent_id }) ==> opt_view(
                agent_id,
            ) == opt_view(old(self).agent_id),
            step matches GuardStep::Ask(GuardQuery::CheckHighRisk { method }) ==> (
            old(self).rpc matches Some(c) && method@ == c.method@),
            step matches GuardStep::Ask(GuardQuery::CheckLoop { session_key: k }) ==> k@
                == session_key(opt_view(old(self).agent_id)),
            step matches GuardStep::Ask(GuardQuery::CheckAuthorization { anonymous }) ==> anonymous
                == (old(self).agent_id is None),
            step matches GuardStep::Ask(GuardQuery::EvaluateWasm { anonymous }) ==> anonymous == (
            old(self).agent_id is None),
        decreases 12 - phase_rank(from),
    {
        let step = match from {
            GuardPhase::Identity => if guards.identity_extractor {
                GuardStep::Ask(GuardQuery::ExtractIdentity)
            } else {
                return self.proceed(guards, GuardPhase::RateLimit);
            },
            GuardPhase::RateLimit => if guards.rate_limiter {
                GuardStep::Ask(GuardQuery::CheckRateLimit { agent_id: self.agent_id.clone() })
            } else {
                return self.proceed(guards, GuardPhase::Token);
            },
            GuardPhase::Token => if guards.token_translator && self.agent_id.is_some() {
                GuardStep::Ask(GuardQuery::TranslateToken)
            } else {
                GuardStep::Ask(GuardQuery::ReadBody)
            },
            GuardPhase::HighRisk => match &self.rpc {
                None => GuardStep::Forward,
                Some(c) => if guards.hitl_engine {
                    GuardStep::Ask(GuardQuery::CheckHighRisk { method: c.method.clone() })
                } else {
                    return self.proceed(guards, GuardPhase::Loop);
                },
            },
            GuardPhase::Loop => if guards.loop_breaker {
                let key = match &self.agent_id {
                    Some(a) => a.clone(),
                    None => String::from_str("default-session"),
                };
                GuardStep::Ask(GuardQuery::CheckLoop { session_key: key })
            } else {
                return self.proceed(guards, GuardPhase::Authz);
            },
            GuardPhase::Authz => if guards.tool_authz_engine {
                GuardStep::Ask(GuardQuery::CheckAuthorization { anonymous: self.agent_id.is_none() })
            } else {
                return self.proceed(guards, GuardPhase::Wasm);
            },
            _ => if guards.wasm_runner {
                GuardStep::Ask(GuardQuery::EvaluateWasm { anonymous: self.agent_id.is_none() })
            } else {
                GuardStep::Forward
            },
        };
        self.phase = match &step {
            GuardStep::Ask(q) => match q {
                GuardQuery::ExtractIdentity => GuardPhase::Identity,
                GuardQuery::CheckRateLimit { .. } => GuardPhase::RateLimit,
                GuardQuery::TranslateToken => GuardPhase::Token,
                GuardQuery::ReadBody => GuardPhase::Body,
                GuardQuery::ScanPrompt => GuardPhase::Prompt,
                GuardQuery::ParseRpc => GuardPhase::Rpc,
                GuardQuery::CheckHighRisk { .. } => GuardPhase::HighRisk,
                GuardQuery::RequestApproval => GuardPhase::Approval,
                GuardQuery::CheckLoop { .. } => GuardPhase::Loop,
                GuardQuery::CheckAuthorization { .. } => GuardPhase::Authz,
                GuardQuery::EvaluateWasm { .. } => GuardPhase::Wasm,
            },
            _ => GuardPhase::Finished,
        };
        step
    }
}

} // verus!

verus! {

/// The method of the JSON-RPC call in the state, if any.
pub open spec fn rpc_method(rpc: Option<RpcCall>) -> Option<Seq<char>> {
    match rpc {
        Some(c) => Some(c.method@),
        None => None,
    }
}

/// The answers that refuse the request: rejected credentials, an exhausted
/// quota, an oversized body, a critical injection, a body that is not JSON, and
/// any rejection, loop, authorization denial or plugin denial of the call.
pub open spec fn answer_refuses(answer: GuardAnswer) -> bool {
    match answer {
        GuardAnswer::IdentityRejected { .. } => true,
        GuardAnswer::RateLimitChecked { allowed } => !allowed,
        GuardAnswer::BodyRead { size } => size > MAX_BODY_BYTES,
        GuardAnswer::PromptScanned { critical, .. } => critical,
        GuardAnswer::RpcParsed { parse } => parse is Malformed,
        GuardAnswer::ApprovalDecided { rejection } => rejection is Some,
        GuardAnswer::LoopChecked { loop_error } => loop_error is Some,
        GuardAnswer::AuthorizationChecked { denial } => denial is Some,
        GuardAnswer::WasmEvaluated { denial } => denial is Some,
        _ => false,
    }
}

impl GuardState {
    /// The state is one the pipeline can reach: the per-call phases are only
    /// entered with a JSON-RPC call at hand.
    pub open spec fn wf(&self) -> bool {
        (self.phase == GuardPhase::HighRisk || self.phase == GuardPhase::Approval || self.phase
            == GuardPhase::Loop || self.phase == GuardPhase::Authz || self.phase
            == GuardPhase::Wasm) ==> self.rpc is Some
    }

    /// Takes the answer to the last question and decides the next step.
    ///
    /// Engines are consulted in a fixed order — identity, rate limit, token
    /// translation, body, prompt scan, JSON-RPC parse, high-risk check and human
    /// approval, loop breaker, tool authorization, WASM plugins — skipping those
    /// that are not attached. A failing answer refuses the request with the
    /// corresponding JSON-RPC error; an empty body, a body that is not a JSON-RPC
    /// call, or a call that passed every attached check is forwarded.
    pub fn advance(&mut self, guards: AttachedGuards, answer: GuardAnswer) -> (step: GuardStep)
        requires
            answer_fits(old(self).phase, answer),
            old(self).wf(),
        ensures
            final(self).wf(),
            final(self).phase == phase_of_step(step),
            phase_rank(final(self).phase) > phase_rank(old(self).phase),
            step is Deny <==> answer_refuses(answer),
            !(answer is IdentityExtracted) ==> final(self).agent_id == old(self).agent_id,
            !(answer is TokenTranslated) ==> final(self).upstream_token == old(self).upstream_token,
            !(answer is RpcParsed) ==> final(self).rpc == old(self).rpc,
            step matches GuardStep::Ask(GuardQuery::CheckRateLimit { agent_id }) ==> opt_view(
                agent_id,
            ) == opt_view(final(self).agent_id),
            step matches GuardStep::Ask(GuardQuery::CheckHighRisk { method }) ==> rpc_method(
                final(self).rpc,
            ) == Some(method@),
            step matches GuardStep::Ask(GuardQuery::CheckLoop { session_key: k }) ==> k@
                == session_key(opt_view(final(self).agent_id)),
            step matches GuardStep::Ask(GuardQuery::CheckAuthorization { anonymous }) ==> anonymous
                == (final(self).agent_id is None),
            step matches GuardStep::Ask(GuardQuery::EvaluateWasm { anonymous }) ==> anonymous == (
            final(self).agent_id is None),
            match answer {
                GuardAnswer::Begin => final(self).agent_id == old(self).agent_id
                    && final(self).upstream_token == old(self).upstream_token && final(self).rpc
                    == old(self).rpc && final(self).phase == first_step_from(
                    guards,
                    GuardPhase::Identity,
                    opt_view(old(self).agent_id),
                    rpc_method(old(self).rpc),
                ),
                GuardAnswer::IdentityExtracted { agent_id } => opt_view(final(self).agent_id)
                    == Some(agent_id@) && final(self).phase == first_step_from(
                    guards,
                    GuardPhase::RateLimit,
                    Some(agent_id@),
                    rpc_method(old(self).rpc),
                ),
                GuardAnswer::IdentityRejected { error } => step matches GuardStep::Deny(d)
                    && is_denial(d, DenialKind::Authentication, error@, "null"@, "auth"@),
                GuardAnswer::RateLimitChecked { allowed } => if allowed {
                    final(self).agent_id == old(self).agent_id && final(self).phase
                        == first_step_from(
                        guards,
                        GuardPhase::Token,
                        opt_view(old(self).agent_id),
                        rpc_method(old(self).rpc),
                    )
                } else {
                    step matches GuardStep::Deny(d) && is_denial(
                        d,
                        DenialKind::RateLimit,
                        ""@,
                        "null"@,
                        "rate_limit"@,
                    )
                },
                GuardAnswer::TokenTranslated { token } => opt_view(final(self).upstream_token)
                    == opt_view(token) && step is Ask && final(self).phase == GuardPhase::Body,
                GuardAnswer::BodyRead { size } => if size > MAX_BODY_BYTES {
                    step matches GuardStep::Deny(d) && is_denial(
                        d,
                        DenialKind::PayloadTooLarge,
                        ""@,
                        "null"@,
                        "payload"@,
                    )
                } else if size == 0 {
                    step is Forward
                } else if guards.prompt_injection_detector {
                    step is Ask && final(self).phase == GuardPhase::Prompt
                } else {
                    step is Ask && final(self).phase == GuardPhase::Rpc
                },
                GuardAnswer::PromptScanned { critical, signatures } => if critical {
                    step matches GuardStep::Deny(d) && is_denial(
                        d,
                        DenialKind::PromptInjection,
                        join(signatures@.map_values(|s: String| s@), ", "@),
                        "null"@,
                        "prompt_scan"@,
                    )
                } else {
                    step is Ask && final(self).phase == GuardPhase::Rpc
                },
                GuardAnswer::RpcParsed { parse } => match parse {
                    RpcParse::Malformed => step matches GuardStep::Deny(d) && is_denial(
                        d,
                        DenialKind::ParseError,
                        ""@,
                        "null"@,
                        "parse"@,
                    ),
                    RpcParse::NotRpc => final(self).rpc is None && step is Forward,
                    RpcParse::Call(c) => final(self).rpc matches Some(f) && f.method@ == c.method@
                        && f.id_json@ == c.id_json@ && final(self).agent_id == old(self).agent_id
                        && final(self).phase == first_step_from(
                        guards,
                        GuardPhase::HighRisk,
                        opt_view(old(self).agent_id),
                        Some(c.method@),
                    ),
                },
                GuardAnswer::HighRiskChecked { high_risk } => if high_risk {
                    step is Ask && final(self).phase == GuardPhase::Approval
                } else {
                    final(self).phase == first_step_from(
                        guards,
                        GuardPhase::Loop,
                        opt_view(old(self).agent_id),
                        rpc_method(old(self).rpc),
                    )
                },
                GuardAnswer::ApprovalDecided { rejection } => match rejection {
                    Some(reason) => step matches GuardStep::Deny(d) && old(self).rpc matches Some(
                        c,
                    ) && is_denial(
                        d,
                        DenialKind::HitlRejected,
                        reason@,
                        c.id_json@,
                        c.method@,
                    ),
                    None => final(self).phase == first_step_from(
                        guards,
                        GuardPhase::Loop,
                        opt_view(old(self).agent_id),
                        rpc_method(old(self).rpc),
                    ),
                },
                GuardAnswer::LoopChecked { loop_error } => match loop_error {
                    Some(e) => step matches GuardStep::Deny(d) && old(self).rpc matches Some(c)
                        && is_denial(d, DenialKind::LoopDetected, e@, c.id_json@, c.method@),
                    None => final(self).phase == first_step_from(
                        guards,
                        GuardPhase::Authz,
                        opt_view(old(self).agent_id),
                        rpc_method(old(self).rpc),
                    ),
                },
                GuardAnswer::AuthorizationChecked { denial } => match denial {
                    Some(reason) => step matches GuardStep::Deny(d) && old(self).rpc matches Some(
                        c,
                    ) && is_denial(
                        d,
                        DenialKind::UnauthorizedTool,
                        reason@,
                        c.id_json@,
                        c.method@,
                    ),
                    None => final(self).phase == first_step_from(
                        guards,
                        GuardPhase::Wasm,
                        opt_view(old(self).agent_id),
                        rpc_method(old(self).rpc),
                    ),
                },
                GuardAnswer::WasmEvaluated { denial } => match denial {
                    Some(reason) => step matches GuardStep::Deny(d) && old(self).rpc matches Some(
                        c,
                    ) && is_denial(d, DenialKind::WasmPolicy, reason@, c.id_json@, c.method@),
                    None => step is Forward,
                },
            },
    {
        match answer {
            GuardAnswer::Begin => self.proceed(guards, GuardPhase::Identity),
            GuardAnswer::IdentityExtracted { agent_id } => {
                self.agent_id = Some(agent_id);
                self.proceed(guards, GuardPhase::RateLimit)
            },
            GuardAnswer::IdentityRejected { error } => {
                self.phase = GuardPhase::Finished;
                GuardStep::Deny(deny(DenialKind::Authentication, error.as_str(), "null", "auth"))
            },
            GuardAnswer::RateLimitChecked { allowed } => {
                if allowed {
                    self.proceed(guards, GuardPhase::Token)
                } else {
                    self.phase = GuardPhase::Finished;
                    GuardStep::Deny(deny(DenialKind::RateLimit, "", "null", "rate_limit"))
                }
            },
            GuardAnswer::TokenTranslated { token } => {
                self.upstream_token = token;
                self.phase = GuardPhase::Body;
                GuardStep::Ask(GuardQuery::ReadBody)
            },
            GuardAnswer::BodyRead { size } => {
                if size > MAX_BODY_BYTES {
                    self.phase = GuardPhase::Finished;
                    GuardStep::Deny(deny(DenialKind::PayloadTooLarge, "", "null", "payload"))
                } else if size == 0 {
                    self.phase = GuardPhase::Finished;
                    GuardStep::Forward
                } else if guards.prompt_injection_detector {
                    self.phase = GuardPhase::Prompt;
                    GuardStep::Ask(GuardQuery::ScanPrompt)
                } else {
                    self.phase = GuardPhase::Rpc;
                    GuardStep::Ask(GuardQuery::ParseRpc)
                }
            },
            GuardAnswer::PromptScanned { critical, signatures } => {
                if critical {
                    self.phase = GuardPhase::Finished;
                    let sigs = join_strings(&signatures, ", ");
                    GuardStep::Deny(
                        deny(DenialKind::PromptInjection, sigs.as_str(), "null", "prompt_scan"),
                    )
                } else {
                    self.phase = GuardPhase::Rpc;
                    GuardStep::Ask(GuardQuery::ParseRpc)
                }
            },
            GuardAnswer::RpcParsed { parse } => match parse {
                RpcParse::Malformed => {
                    self.phase = GuardPhase::Finished;
                    GuardStep::Deny(deny(DenialKind::ParseError, "", "null", "parse"))
                },
                RpcParse::NotRpc => {
                    self.rpc = None;
                    self.phase = GuardPhase::Finished;
                    GuardStep::Forward
                },
                RpcParse::Call(c) => {
                    self.rpc = Some(c);
                    self.proceed(guards, GuardPhase::HighRisk)
                },
            },
            GuardAnswer::HighRiskChecked { high_risk } => {
                if high_risk {
                    self.phase = GuardPhase::Approval;
                    GuardStep::Ask(GuardQuery::RequestApproval)
                } else {
                    self.proceed(guards, GuardPhase::Loop)
                }
            },
            GuardAnswer::ApprovalDecided { rejection } => match rejection {
                Some(reason) => self.deny_call(DenialKind::HitlRejected, reason.as_str()),
                None => self.proceed(guards, GuardPhase::Loop),
            },
            GuardAnswer::LoopChecked { loop_error } => match loop_error {
                Some(e) => self.deny_call(DenialKind::LoopDetected, e.as_str()),
                None => self.proceed(guards, GuardPhase::Authz),
            },
            GuardAnswer::AuthorizationChecked { denial } => match denial {
                Some(reason) => self.deny_call(DenialKind::UnauthorizedTool, reason.as_str()),
                None => self.proceed(guards, GuardPhase::Wasm),
            },
            GuardAnswer::WasmEvaluated { denial } => match denial {
                Some(reason) => self.deny_call(DenialKind::WasmPolicy, reason.as_str()),
                None => {
                    self.phase = GuardPhase::Finished;
                    GuardStep::Forward
                },
            },
        }
    }

    /// Refuses the JSON-RPC call at hand.
    fn deny_call(&mut self, kind: DenialKind, detail: &str) -> (step: GuardStep)
        requires
            old(self).rpc is Some,
        ensures
            final(self).phase == GuardPhase::Finished,
            final(self).agent_id == old(self).agent_id,
            final(self).upstream_token == old(self).upstream_token,
            final(self).rpc == old(self).rpc,
            step matches GuardStep::Deny(d) && old(self).rpc matches Some(c) && is_denial(
                d,
                kind,
                detail@,
                c.id_json@,
                c.method@,
            ),
    {
        self.phase = GuardPhase::Finished;
        match &self.rpc {
            Some(c) => GuardStep::Deny(deny(kind, detail, c.id_json.as_str(), c.method.as_str())),
            None => GuardStep::Forward,
        }
    }
}

} // verus!

verus! {

// ---------------------------------------------------------------------------
// Forwarding
// ---------------------------------------------------------------------------

/// The headers sent upstream. `request` holds the request's headers as
/// copying them one by one leaves them (a repeated name keeps its last value);
/// `client_authorization` is the request's `authorization` as a lookup reads
/// it (the first value). The result is the request's headers without `host`
/// and `authorization`; then `authorization: Bearer <token>` when a translated
/// token gives an acceptable header value, or else the client's own
/// `authorization` when no token was translated. (The gateway adds `host` and
/// `traceparent` afterwards.)
pub open spec fn spec_forward_headers(
    request: Map<Seq<char>, Seq<char>>,
    client_authorization: Option<Seq<char>>,
    token: Option<Seq<char>>,
) -> Map<Seq<char>, Seq<char>> {
    let base = request.remove("host"@).remove("authorization"@);
    match token {
        Some(t) => if is_valid_header_value("Bearer "@ + t) {
            base.insert("authorization"@, "Bearer "@ + t)
        } else {
            base
        },
        None => match client_authorization {
            Some(a) => base.insert("authorization"@, a),
            None => base,
        },
    }
}

/// The upstream never sees the client's `host`, and once a token has been
/// translated it never sees the client's own `authorization`: it gets the
/// translated credential, or none when that does not make an acceptable
/// header value. Every other client header is passed on unchanged.
pub proof fn law_client_credentials_replaced(
    request: Map<Seq<char>, Seq<char>>,
    client_authorization: Option<Seq<char>>,
    token: Option<Seq<char>>,
)
    ensures
        !spec_forward_headers(request, client_authorization, token).dom().contains("host"@),
        token matches Some(t) ==> (if is_valid_header_value("Bearer "@ + t) {
            spec_forward_headers(request, client_authorization, token).dom().contains("authorization"@)
                && spec_forward_headers(request, client_authorization, token)["authorization"@] == "Bearer "@ + t
        } else {
            !spec_forward_headers(request, client_authorization, token).dom().contains("authorization"@)
        }),
        forall|k: Seq<char>|
            k != "host"@ && k != "authorization"@ && #[trigger] request.dom().contains(k) ==> spec_forward_headers(
                request,
                client_authorization,
                token,
            ).dom().contains(k) && spec_forward_headers(request, client_authorization, token)[k] == request[k],
{
    assert("host"@ != "authorization"@) by {
        reveal_strlit("host");
        reveal_strlit("authorization");
        assert("host"@.len() != "authorization"@.len());
    }
}

/// Without a translated token, the client's own `authorization` reaches the
/// upstream exactly as the client sent it, whatever its scheme; a client that
/// sent none is forwarded without one.
pub proof fn law_client_authorization_passed_on(
    request: Map<Seq<char>, Seq<char>>,
    client_authorization: Option<Seq<char>>,
)
    ensures
        match client_authorization {
            Some(a) => spec_forward_headers(request, client_authorization, None).dom().contains(
                "authorization"@,
            ) && spec_forward_headers(request, client_authorization, None)["authorization"@] == a,
            None => !spec_forward_headers(request, client_authorization, None).dom().contains(
                "authorization"@,
            ),
        },
{
}

/// Builds the headers sent upstream (see `spec_forward_headers`).
pub fn forward_headers(
    request: &StringMap,
    client_authorization: Option<&str>,
    upstream_token: Option<&str>,
) -> (r: StringMap)
    ensures
        upstream_token is None ==> match client_authorization {
            Some(a) => r@.dom().contains("authorization"@) && r@["authorization"@] == a@,
            None => !r@.dom().contains("authorization"@),
        },
        r@ == spec_forward_headers(
            request@,
            match client_authorization {
                Some(a) => Some(a@),
                None => None,
            },
            match upstream_token {
                Some(t) => Some(t@),
                None => None,
            },
        ),
{
    let entries = request.entries();
    let ghost pairs = request.pairs();
    proof {
        request.lemma_view();
    }
    let mut out = StringMap::new();
    let mut i: usize = 0;
    assert(pairs.take(0) =~= Seq::<(Seq<char>, Seq<char>)>::empty());
    assert(entries_map(Seq::<(Seq<char>, Seq<char>)>::empty()).remove("host"@).remove(
        "authorization"@,
    ) =~= Map::<Seq<char>, Seq<char>>::empty());
    while i < entries.len()
        invariant
            i <= entries@.len(),
            pairs == crate::strmap::pair_views(entries@),
            out@ == entries_map(pairs.take(i as int)).remove("host"@).remove("authorization"@),
        decreases entries@.len() - i,
    {
        let (k, v) = &entries[i];
        assert(pairs.take(i + 1).drop_last() =~= pairs.take(i as int));
        assert(pairs.take(i + 1).last() == (k@, v@));
        let ghost prev = entries_map(pairs.take(i as int));
        if !str_eq(k.as_str(), "host") && !str_eq(k.as_str(), "authorization") {
            out.insert(k.clone(), v.clone());
            assert(out@ =~= prev.insert(k@, v@).remove("host"@).remove("authorization"@));
        } else {
            assert(prev.remove("host"@).remove("authorization"@) =~= prev.insert(k@, v@).remove(
                "host"@,
            ).remove("authorization"@));
        }
        i = i + 1;
    }
    assert(pairs.take(entries@.len() as int) =~= pairs);
    match upstream_token {
        Some(t) => {
            let mut bearer = String::from_str("Bearer ");
            bearer.append(t);
            if valid_header_value(bearer.as_str()) {
                out.insert(String::from_str("authorization"), bearer);
            }
        },
        None => {
            if let Some(orig) = client_authorization {
                out.insert(String::from_str("authorization"), String::from_str(orig));
            }
        },
    }
    out
}

/// How the upstream response body reaches the client.
#[derive(Debug, Clone, Copy, PartialEq, Eq)]
pub enum ResponseBodyPlan {
    /// Streamed through as it arrives (SSE).
    Stream,
    /// Collected and passed through the DLP masking engine.
    Mask,
    /// Passed through unchanged.
    PassThrough,
}

/// An SSE response is streamed; otherwise it is masked when a DLP engine is
/// attached, and passed through when not.
pub fn response_body_plan(is_sse: bool, dlp_attached: bool) -> (r: ResponseBodyPlan)
    ensures
        r == (if is_sse {
            ResponseBodyPlan::Stream
        } else if dlp_attached {
            ResponseBodyPlan::Mask
        } else {
            ResponseBodyPlan::PassThrough
        }),
{
    if is_sse {
        ResponseBodyPlan::Stream
    } else if dlp_attached {
        ResponseBodyPlan::Mask
    } else {
        ResponseBodyPlan::PassThrough
    }
}

/// The headers of the response sent to the client: the upstream's, with the
/// SSE headers set on an SSE response.
pub fn client_response_headers(upstream: &StringMap, is_sse: bool) -> (r: StringMap)
    ensures
        r@ == (if is_sse {
            upstream@.insert("content-type"@, SSE_CONTENT_TYPE@).insert(
                "cache-control"@,
                "no-cache"@,
            ).insert("connection"@, "keep-alive"@)
        } else {
            upstream@
        }),
{
    let mut r = upstream.clone();
    if is_sse {
        apply_sse_headers(&mut r);
    }
    r
}

/// The host of `uri` as `hyper::Uri` parses it: `None` when the text is not a
/// URI or names no host.
pub uninterp spec fn http_uri_host(uri: Seq<char>) -> Option<Seq<char>>;

/// The host named in `uri`, by parsing it with `str::parse::<hyper::Uri>` and
/// taking `Uri::host`.
///
/// The contract ties the result to `http_uri_host` of the text; the URI
/// grammar is the `http` crate's and is not restated.
#[verifier::external_body]
fn uri_host(uri: &str) -> (r: Option<String>)
    ensures
        opt_view(r) == http_uri_host(uri@),
{
    match uri.parse::<hyper::Uri>() {
        Ok(parsed) => match parsed.host() {
            Some(h) => Some(h.to_string()),
            None => None,
        },
        Err(_) => None,
    }
}

/// Sets the `host` header of the upstream request to the host of its URI,
/// when the URI names one that is an acceptable header value; otherwise the
/// headers are left as they are.
pub fn set_upstream_host(headers: &mut StringMap, target_uri: &str)
    ensures
        match http_uri_host(target_uri@) {
            Some(h) => if is_valid_header_value(h) {
                final(headers)@ == old(headers)@.insert("host"@, h)
            } else {
                final(headers)@ == old(headers)@
            },
            None => final(headers)@ == old(headers)@,
        },
{
    if let Some(host) = uri_host(target_uri) {
        if valid_header_value(host.as_str()) {
            headers.insert(String::from_str("host"), host);
        }
    }
}

/// The upstream request URI: the upstream URL followed by the request's path
/// and query.
pub fn forward_target(upstream_url: &str, path_and_query: &str) -> (r: String)
    ensures
        r@ == upstream_url@ + path_and_query@,
{
    let mut r = String::from_str(upstream_url);
    r.append(path_and_query);
    r
}

} // verus!
