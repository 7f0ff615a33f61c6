use aegis_gateway::config::{reloads_config, FileEventKind, GatewayConfig, RouteConfig};
use aegis_gateway::router::{
    classify_endpoint, client_response_headers, deny, denial_metrics, forward_headers,
    forward_target, health_response, ledger_not_configured_response, metrics_response,
    proof_found_response, proof_not_found_response, proof_root_response, resolve_upstream,
    response_body_plan, set_upstream_host, upstream_unreachable_denial, AttachedGuards, DenialKind, Endpoint,
    GuardAnswer, GuardPhase, GuardQuery, GuardState, GuardStep, ResponseBodyPlan, RpcCall,
    RpcParse,
};
use aegis_gateway::strmap::StringMap;

fn route(path: &str, upstream: &str, enabled: bool) -> RouteConfig {
    RouteConfig {
        path: path.to_string(),
        upstream_url: upstream.to_string(),
        required_role: None,
        enabled,
    }
}

fn all_guards() -> AttachedGuards {
    AttachedGuards {
        identity_extractor: true,
        rate_limiter: true,
        token_translator: true,
        prompt_injection_detector: true,
        hitl_engine: true,
        loop_breaker: true,
        tool_authz_engine: true,
        wasm_runner: true,
    }
}

fn no_guards() -> AttachedGuards {
    AttachedGuards {
        identity_extractor: false,
        rate_limiter: false,
        token_translator: false,
        prompt_injection_detector: false,
        hitl_engine: false,
        loop_breaker: false,
        tool_authz_engine: false,
        wasm_runner: false,
    }
}

fn call(method: &str, id: &str) -> RpcCall {
    RpcCall { method: method.to_string(), id_json: id.to_string() }
}

#[test]
fn endpoints() {
    assert!(matches!(classify_endpoint("/health"), Endpoint::Health));
    assert!(matches!(classify_endpoint("/metrics"), Endpoint::Metrics));
    assert!(matches!(classify_endpoint("/v1/proofs/root"), Endpoint::ProofRoot));
    match classify_endpoint("/v1/proofs/test-req-0") {
        Endpoint::ProofByRequestId(id) => assert_eq!(id, "test-req-0"),
        _ => panic!("expected proof lookup"),
    }
    assert!(matches!(classify_endpoint("/v1/proofs/"), Endpoint::Proxied));
    assert!(matches!(classify_endpoint("/mcp"), Endpoint::Proxied));
    assert!(matches!(classify_endpoint("/healthz"), Endpoint::Proxied));
}

#[test]
fn gateway_answers() {
    let h = health_response();
    assert_eq!(h.status, 200);
    assert!(h.body.starts_with("{\"status\":\"ok\""));
    assert_eq!(h.content_type, "application/json");
    let root = proof_root_response(Some("ab12"), 4);
    assert_eq!(root.body, "{\"merkle_root\":\"ab12\",\"leaf_count\":4}");
    assert_eq!(proof_root_response(None, 9).body, "{\"merkle_root\":null,\"leaf_count\":0}");
    let nf = proof_not_found_response("unknown request id");
    assert_eq!(nf.status, 404);
    assert_eq!(nf.body, "{\"error\":\"proof not found: unknown request id\"}");
    let missing = ledger_not_configured_response();
    assert_eq!(missing.status, 503);
    assert_eq!(missing.body, "{\"error\":\"audit ledger not configured\"}");
}

#[test]
fn route_table_first_enabled_prefix_wins() {
    let routes = vec![
        route("/mcp", "http://disabled", false),
        route("/mcp", "http://first", true),
        route("/mcp/tools", "http://second", true),
    ];
    assert_eq!(resolve_upstream(&routes, "/mcp/tools/x", "http://fallback"), "http://first");
    assert_eq!(resolve_upstream(&routes, "/other", "http://fallback"), "http://fallback");
    assert_eq!(resolve_upstream(&Vec::new(), "/mcp", "http://fallback"), "http://fallback");
}

#[test]
fn default_router_config_points_at_upstream() {
    let cfg = GatewayConfig::default_for_upstream("http://127.0.0.1:7777");
    assert_eq!(cfg.routes.len(), 1);
    assert_eq!(cfg.routes[0].path, "/mcp");
    assert_eq!(cfg.routes[0].upstream_url, "http://127.0.0.1:7777");
    assert_eq!(resolve_upstream(&cfg.routes, "/mcp", "x"), "http://127.0.0.1:7777");
    let d = GatewayConfig::default();
    assert_eq!(d.routes[0].upstream_url, "http://127.0.0.1:9090");
    assert_eq!(d.server.default_timeout_ms, 30000);
    assert_eq!(d.roles[0].allowed_tools, vec!["*".to_string()]);
    assert_eq!(d.roles[0].max_rate_limit, Some(1000));
    assert!(d.security.enable_wasm_guardrails && d.security.enable_proof_logging);
}

#[test]
fn denial_bodies() {
    let d = deny(DenialKind::Authentication, "bad token", "null", "auth");
    assert_eq!(d.status, 401);
    assert_eq!(
        d.body,
        r#"{"jsonrpc":"2.0","error":{"code":-32002,"message":"Authentication Failed: bad token"},"id":null}"#
    );
    assert_eq!(d.audit_decision, "DENY_AUTH_FAILED");
    let u = upstream_unreachable_denial("tools/list");
    assert_eq!(u.status, 502);
    assert_eq!(
        u.body,
        r#"{"jsonrpc":"2.0","error":{"code":-32010,"message":"Upstream server unreachable"},"id":null}"#
    );
    assert_eq!(u.audit_tool, "tools/list");
    let p = deny(DenialKind::PayloadTooLarge, "", "null", "payload");
    assert_eq!(p.status, 413);
    assert!(p.body.contains("-32000") && p.body.contains("Payload Too Large"));
    let e = deny(DenialKind::ParseError, "", "null", "parse");
    assert_eq!(e.status, 400);
    assert!(e.body.contains("-32700"));
}

fn expect_ask(step: GuardStep) -> GuardQuery {
    match step {
        GuardStep::Ask(q) => q,
        GuardStep::Deny(d) => panic!("unexpected denial {}", d.body),
        GuardStep::Forward => panic!("unexpected forward"),
    }
}

#[test]
fn pipeline_without_guards_forwards_json_rpc() {
    let g = no_guards();
    let mut st = GuardState::new();
    assert!(matches!(expect_ask(st.advance(g, GuardAnswer::Begin)), GuardQuery::ReadBody));
    assert!(matches!(expect_ask(st.advance(g, GuardAnswer::BodyRead { size: 40 })), GuardQuery::ParseRpc));
    let step = st.advance(g, GuardAnswer::RpcParsed { parse: RpcParse::Call(call("tools/list", "1")) });
    assert!(matches!(step, GuardStep::Forward));
    assert_eq!(st.route_name("/mcp"), "tools/list");
    assert_eq!(st.audit_agent_id(), "anonymous");
}

#[test]
fn pipeline_empty_body_forwards() {
    let mut st = GuardState::new();
    let _ = st.advance(no_guards(), GuardAnswer::Begin);
    assert!(matches!(st.advance(no_guards(), GuardAnswer::BodyRead { size: 0 }), GuardStep::Forward));
    assert_eq!(st.route_name("/mcp"), "/mcp");
}

#[test]
fn pipeline_full_run_in_order() {
    let g = all_guards();
    let mut st = GuardState::new();
    assert!(matches!(expect_ask(st.advance(g, GuardAnswer::Begin)), GuardQuery::ExtractIdentity));
    match expect_ask(st.advance(g, GuardAnswer::IdentityExtracted { agent_id: "agent-7".into() })) {
        GuardQuery::CheckRateLimit { agent_id } => assert_eq!(agent_id.as_deref(), Some("agent-7")),
        _ => panic!("expected rate limit"),
    }
    assert!(matches!(
        expect_ask(st.advance(g, GuardAnswer::RateLimitChecked { allowed: true })),
        GuardQuery::TranslateToken
    ));
    assert!(matches!(
        expect_ask(st.advance(g, GuardAnswer::TokenTranslated { token: Some("tok".into()) })),
        GuardQuery::ReadBody
    ));
    assert_eq!(st.upstream_token.as_deref(), Some("tok"));
    assert!(matches!(expect_ask(st.advance(g, GuardAnswer::BodyRead { size: 10 })), GuardQuery::ScanPrompt));
    assert!(matches!(
        expect_ask(st.advance(g, GuardAnswer::PromptScanned { critical: false, signatures: vec![] })),
        GuardQuery::ParseRpc
    ));
    match expect_ask(st.advance(g, GuardAnswer::RpcParsed { parse: RpcParse::Call(call("sql_query", "5")) })) {
        GuardQuery::CheckHighRisk { method } => assert_eq!(method, "sql_query"),
        _ => panic!("expected high-risk check"),
    }
    match expect_ask(st.advance(g, GuardAnswer::HighRiskChecked { high_risk: false })) {
        GuardQuery::CheckLoop { session_key } => assert_eq!(session_key, "agent-7"),
        _ => panic!("expected loop check"),
    }
    assert!(matches!(
        expect_ask(st.advance(g, GuardAnswer::LoopChecked { loop_error: None })),
        GuardQuery::CheckAuthorization { anonymous: false }
    ));
    assert!(matches!(
        expect_ask(st.advance(g, GuardAnswer::AuthorizationChecked { denial: None })),
        GuardQuery::EvaluateWasm { anonymous: false }
    ));
    assert!(matches!(st.advance(g, GuardAnswer::WasmEvaluated { denial: None }), GuardStep::Forward));
    assert_eq!(st.phase, GuardPhase::Finished);
    assert_eq!(st.audit_agent_id(), "agent-7");
}

fn deny_of(step: GuardStep) -> aegis_gateway::router::Denial {
    match step {
        GuardStep::Deny(d) => d,
        _ => panic!("expected a denial"),
    }
}

#[test]
fn pipeline_refusals() {
    let g = all_guards();

    let mut st = GuardState::new();
    let _ = st.advance(g, GuardAnswer::Begin);
    let d = deny_of(st.advance(g, GuardAnswer::IdentityRejected { error: "expired".into() }));
    assert_eq!(d.kind, DenialKind::Authentication);
    assert_eq!(d.status, 401);

    let mut st = GuardState::new();
    let _ = st.advance(g, GuardAnswer::Begin);
    match expect_ask(st.advance(g, GuardAnswer::IdentityExtracted { agent_id: "a".into() })) {
        GuardQuery::CheckRateLimit { .. } => {}
        _ => panic!(),
    }
    let d = deny_of(st.advance(g, GuardAnswer::RateLimitChecked { allowed: false }));
    assert_eq!(
        d.body,
        r#"{"jsonrpc":"2.0","error":{"code":-32004,"message":"Rate Limit Exceeded: Max request quota exceeded for agent"},"id":null}"#
    );

    let mut st = GuardState::new();
    let g2 = AttachedGuards { identity_extractor: false, rate_limiter: false, ..all_guards() };
    assert!(matches!(expect_ask(st.advance(g2, GuardAnswer::Begin)), GuardQuery::ReadBody));
    let d = deny_of(st.advance(g2, GuardAnswer::BodyRead { size: 5 * 1024 * 1024 }));
    assert_eq!(d.status, 413);

    let mut st = GuardState::new();
    let _ = st.advance(g2, GuardAnswer::Begin);
    let _ = st.advance(g2, GuardAnswer::BodyRead { size: 3 });
    let d = deny_of(st.advance(
        g2,
        GuardAnswer::PromptScanned {
            critical: true,
            signatures: vec!["ignore previous".into(), "system override".into()],
        },
    ));
    assert_eq!(
        d.body,
        r#"{"jsonrpc":"2.0","error":{"code":-32003,"message":"Critical Prompt Injection Attack Detected: ignore previous, system override"},"id":null}"#
    );

    let mut st = GuardState::new();
    let _ = st.advance(g2, GuardAnswer::Begin);
    let _ = st.advance(g2, GuardAnswer::BodyRead { size: 3 });
    let _ = st.advance(g2, GuardAnswer::PromptScanned { critical: false, signatures: vec![] });
    let d = deny_of(st.advance(g2, GuardAnswer::RpcParsed { parse: RpcParse::Malformed }));
    assert_eq!(d.status, 400);

    let mut st = GuardState::new();
    let _ = st.advance(g2, GuardAnswer::Begin);
    let _ = st.advance(g2, GuardAnswer::BodyRead { size: 3 });
    let _ = st.advance(g2, GuardAnswer::PromptScanned { critical: false, signatures: vec![] });
    assert!(matches!(st.advance(g2, GuardAnswer::RpcParsed { parse: RpcParse::NotRpc }), GuardStep::Forward));

    let mut st = GuardState::new();
    let _ = st.advance(g2, GuardAnswer::Begin);
    let _ = st.advance(g2, GuardAnswer::BodyRead { size: 3 });
    let _ = st.advance(g2, GuardAnswer::PromptScanned { critical: false, signatures: vec![] });
    let _ = st.advance(g2, GuardAnswer::RpcParsed { parse: RpcParse::Call(call("rm_rf", "\"x\"")) });
    assert!(matches!(
        expect_ask(st.advance(g2, GuardAnswer::HighRiskChecked { high_risk: true })),
        GuardQuery::RequestApproval
    ));
    let d = deny_of(st.advance(g2, GuardAnswer::ApprovalDecided { rejection: Some("denied by operator".into()) }));
    assert_eq!(
        d.body,
        r#"{"jsonrpc":"2.0","error":{"code":-32005,"message":"HITL Approval Required: denied by operator"},"id":"x"}"#
    );
    assert_eq!(d.audit_tool, "rm_rf");
    assert_eq!(d.audit_decision, "DENY_HITL_REJECTED");
}

#[test]
fn pipeline_per_call_refusals() {
    let g = AttachedGuards { identity_extractor: false, rate_limiter: false, hitl_engine: false, ..all_guards() };
    let start = |answer_after_parse: Option<GuardAnswer>| {
        let mut st = GuardState::new();
        let _ = st.advance(g, GuardAnswer::Begin);
        let _ = st.advance(g, GuardAnswer::BodyRead { size: 3 });
        let _ = st.advance(g, GuardAnswer::PromptScanned { critical: false, signatures: vec![] });
        let q = expect_ask(st.advance(g, GuardAnswer::RpcParsed { parse: RpcParse::Call(call("t", "9")) }));
        match q {
            GuardQuery::CheckLoop { session_key } => assert_eq!(session_key, "default-session"),
            _ => panic!("expected loop check"),
        }
        if let Some(a) = answer_after_parse {
            let _ = expect_ask(st.advance(g, a));
        }
        st
    };
    let mut st = start(None);
    let d = deny_of(st.advance(g, GuardAnswer::LoopChecked { loop_error: Some("5 repeats".into()) }));
    assert!(d.body.contains("\"code\":-32004") && d.body.contains("Execution Loop Detected: 5 repeats"));
    assert!(d.body.ends_with("\"id\":9}"));

    let mut st = start(Some(GuardAnswer::LoopChecked { loop_error: None }));
    let d = deny_of(st.advance(g, GuardAnswer::AuthorizationChecked { denial: Some("role".into()) }));
    assert!(d.body.contains("\"code\":-32001") && d.body.contains("Unauthorized Tool Call: role"));

    let mut st = start(Some(GuardAnswer::LoopChecked { loop_error: None }));
    let _ = expect_ask(st.advance(g, GuardAnswer::AuthorizationChecked { denial: None }));
    let d = deny_of(st.advance(g, GuardAnswer::WasmEvaluated { denial: Some("pii".into()) }));
    assert!(d.body.contains("Security Policy Denial: pii"));
    assert_eq!(d.kind, DenialKind::WasmPolicy);
}

#[test]
fn forwarded_headers() {
    let mut req = StringMap::new();
    req.insert("host".into(), "gateway:8080".into());
    req.insert("authorization".into(), "Bearer client".into());
    req.insert("content-type".into(), "application/json".into());

    let with_token = forward_headers(&req, Some("Bearer client"), Some("upstream-token"));
    assert_eq!(with_token.get("authorization").unwrap(), "Bearer upstream-token");
    assert!(with_token.get("host").is_none());
    assert_eq!(with_token.get("content-type").unwrap(), "application/json");

    let passthrough = forward_headers(&req, Some("Bearer client"), None);
    assert_eq!(passthrough.get("authorization").unwrap(), "Bearer client");
    assert_eq!(passthrough.len(), 2);

    // A repeated authorization header: the first value is the one passed on.
    let first = forward_headers(&req, Some("Bearer first"), None);
    assert_eq!(first.get("authorization").unwrap(), "Bearer first");
    let none = forward_headers(&req, None, None);
    assert!(none.get("authorization").is_none());

    let bad = forward_headers(&req, Some("Bearer client"), Some("bad\u{7f}"));
    assert!(bad.get("authorization").is_none());

    assert_eq!(forward_target("http://up:9", "/mcp?x=1"), "http://up:9/mcp?x=1");
}

#[test]
fn proof_and_metrics_answers() {
    let ok = proof_found_response(Ok("{\"leaf\":1}".to_string()));
    assert_eq!((ok.status, ok.body.as_str()), (200, "{\"leaf\":1}"));
    let failed = proof_found_response(Err("key must be a string".to_string()));
    assert_eq!(failed.status, 200);
    assert_eq!(failed.body, "{\"error\":\"serialization failed: key must be a string\"}");
    let m = metrics_response("# TYPE x counter\n".to_string());
    assert_eq!(m.status, 200);
    assert_eq!(m.content_type, "text/plain; version=0.0.4; charset=utf-8");
    assert_eq!(m.body, "# TYPE x counter\n");
}

#[test]
fn audit_entries_and_denial_metrics() {
    let mut st = GuardState::new();
    let e = st.audit_entry("auth", "DENY_AUTH_FAILED", 1_700_000_000_000_000_000, 250);
    assert_eq!(e.request_id, "req-audit-log");
    assert_eq!(e.agent_id, "anonymous");
    assert_eq!(e.tool_name, "auth");
    assert_eq!(e.decision, "DENY_AUTH_FAILED");
    assert_eq!(e.timestamp_ns, 1_700_000_000_000_000_000);
    assert_eq!(e.latency_us, 250);
    st.agent_id = Some("agent-7".to_string());
    let e = st.audit_entry("tools/call", "ALLOW", u128::MAX, u128::MAX);
    assert_eq!(e.agent_id, "agent-7");
    assert_eq!(e.timestamp_ns, u64::MAX);
    assert_eq!(e.latency_us, u64::MAX);

    let auth = denial_metrics(DenialKind::Authentication);
    assert_eq!(auth.violation.as_deref(), Some("auth_failed"));
    assert_eq!(auth.http_route.as_deref(), Some("auth"));
    assert_eq!(auth.latency_layer, None);
    let rate = denial_metrics(DenialKind::RateLimit);
    assert_eq!(rate.violation.as_deref(), Some("rate_limit_exceeded"));
    assert_eq!(rate.http_route, None);
    assert_eq!(rate.latency_layer.as_deref(), Some("rate_limiter"));
    let wasm = denial_metrics(DenialKind::WasmPolicy);
    assert!(wasm.violation.is_none() && wasm.http_route.is_none() && wasm.latency_layer.is_none());
}

#[test]
fn response_side_plan() {
    assert_eq!(response_body_plan(true, true), ResponseBodyPlan::Stream);
    assert_eq!(response_body_plan(false, true), ResponseBodyPlan::Mask);
    assert_eq!(response_body_plan(false, false), ResponseBodyPlan::PassThrough);
    let mut up = StringMap::new();
    up.insert("content-type".into(), "application/json".into());
    up.insert("x-upstream".into(), "1".into());
    let plain = client_response_headers(&up, false);
    assert_eq!(plain.len(), 2);
    assert_eq!(plain.get("content-type").map(String::as_str), Some("application/json"));
    let sse = client_response_headers(&up, true);
    assert_eq!(sse.get("content-type").map(String::as_str), Some("text/event-stream"));
    assert_eq!(sse.get("cache-control").map(String::as_str), Some("no-cache"));
    assert_eq!(sse.get("connection").map(String::as_str), Some("keep-alive"));
    assert_eq!(sse.get("x-upstream").map(String::as_str), Some("1"));
    assert_eq!(sse.len(), 4);
}

#[test]
fn config_reload_on_create_or_modify_only() {
    assert!(reloads_config(FileEventKind::Create));
    assert!(reloads_config(FileEventKind::Modify));
    for k in [FileEventKind::Any, FileEventKind::Access, FileEventKind::Remove, FileEventKind::Other] {
        assert!(!reloads_config(k));
    }
}

#[test]
fn upstream_host_header_from_target() {
    let mut h = StringMap::new();
    h.insert("host".into(), "client.example".into());
    set_upstream_host(&mut h, "http://127.0.0.1:9090/mcp?x=1");
    assert_eq!(h.get("host").map(String::as_str), Some("127.0.0.1"));
    set_upstream_host(&mut h, "https://tools.example.com/a");
    assert_eq!(h.get("host").map(String::as_str), Some("tools.example.com"));
    // A path alone names no host; text that is not a URI is ignored.
    set_upstream_host(&mut h, "/only/a/path");
    assert_eq!(h.get("host").map(String::as_str), Some("tools.example.com"));
    set_upstream_host(&mut h, "not a uri");
    assert_eq!(h.get("host").map(String::as_str), Some("tools.example.com"));
    assert_eq!(h.len(), 1);
}
