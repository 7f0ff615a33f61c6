use aegis_gateway::pii::PiiFilterPlugin;
use aegis_gateway::wasm::wit_types::{InspectionContext, PolicyDecision, ViolationRisk};

fn ctx(request_id: &str, session_id: &str, role: &str, tool: &str, args: &str) -> InspectionContext {
    InspectionContext {
        request_id: request_id.to_string(),
        session_id: session_id.to_string(),
        agent_role: role.to_string(),
        tool_name: tool.to_string(),
        arguments_json: args.to_string(),
        metadata: vec![],
    }
}

#[test]
fn test_pii_detection_clean_payload() {
    let c = ctx(
        "req-1",
        "sess-1",
        "analyst",
        "sql_query",
        r#"{"query":"SELECT * FROM users WHERE active = true"}"#,
    );
    let res = PiiFilterPlugin::inspect(&c).unwrap();
    assert!(matches!(res.decision, PolicyDecision::Allow));
    assert!(matches!(res.risk, ViolationRisk::Low));
}

#[test]
fn test_pii_detection_credit_card() {
    let c = ctx("req-2", "sess-2", "billing", "payment_process", r#"{"card":"4532-1122-3344-5566"}"#);
    let res = PiiFilterPlugin::inspect(&c).unwrap();
    assert!(matches!(res.decision, PolicyDecision::Deny(_)));
    assert!(matches!(res.risk, ViolationRisk::Critical));
}

#[test]
fn test_pii_detection_api_key() {
    let c = ctx(
        "req-3",
        "sess-3",
        "devops",
        "deploy_service",
        r#"{"token":"sk_test_mock_token_000000000000000000000000"}"#,
    );
    let res = PiiFilterPlugin::inspect(&c).unwrap();
    assert!(matches!(res.decision, PolicyDecision::Deny(_)));
    assert!(matches!(res.risk, ViolationRisk::Critical));
}

#[test]
fn email_alone_is_high_risk_with_reason() {
    let c = ctx("r", "s", "a", "t", r#"{"to":"alice@example.com"}"#);
    let res = PiiFilterPlugin::inspect(&c).unwrap();
    match &res.decision {
        PolicyDecision::Deny(reason) => assert_eq!(reason, "PII payload detected: Email Address"),
        other => panic!("unexpected {other:?}"),
    }
    assert_eq!(res.risk, ViolationRisk::High);
    assert_eq!(
        res.metadata,
        vec![
            ("pii_status".to_string(), "detected".to_string()),
            ("pii_matches".to_string(), "Email Address".to_string()),
        ]
    );
}

#[test]
fn verdict_table() {
    let clean = PiiFilterPlugin::verdict(false, false, false, 9);
    assert!(matches!(clean.decision, PolicyDecision::Allow));
    assert_eq!(clean.execution_time_us, 9);
    assert_eq!(clean.metadata, vec![("pii_status".to_string(), "clean".to_string())]);

    let all = PiiFilterPlugin::verdict(true, true, true, 0);
    match &all.decision {
        PolicyDecision::Deny(reason) => assert_eq!(
            reason,
            "PII payload detected: Credit Card Number, Email Address, API Key / Secret Token"
        ),
        other => panic!("unexpected {other:?}"),
    }
    assert_eq!(all.risk, ViolationRisk::Critical);
}
