use aegis_gateway::strmap::StringMap;
use aegis_gateway::wasm::engine::WasmEngine;
use aegis_gateway::wasm::error::WasmError;
use aegis_gateway::wasm::hotswap::{admit_plugin, swap_compile_error, PluginHotSwapper};
use aegis_gateway::wasm::loader::{check_component_header, ComponentLoader, LoadStep};
use aegis_gateway::wasm::mapping::{
    build_inspection_context, evaluation_trap, parse_guardrail_result, wasm_evaluation_denial,
    wasm_verdict_denial, HostDecision, HostPolicySummary, HostRiskRating, InspectedCall,
    InspectedSession,
};
use aegis_gateway::wasm::metadata::PluginMetadata;
use aegis_gateway::wasm::pool::{WasmInstancePool, PoolConfig, DEFAULT_MAX_MEMORY_BYTES};
use aegis_gateway::wasm::security::verify_plugin_signature;
use aegis_gateway::wasm::wit_types;
use ed25519_dalek::{Signature, Signer, SigningKey, VerifyingKey};

fn session(role: &str) -> InspectedSession {
    InspectedSession {
        session_id: "sess-0".to_string(),
        agent_role: role.to_string(),
        metadata: StringMap::new(),
    }
}

#[test]
fn test_build_inspection_context() {
    let session = session("admin");
    let tool_call = InspectedCall {
        name: "sql_query".to_string(),
        arguments_json: Some("{\"query\":\"SELECT 1\"}".to_string()),
    };

    let ctx = build_inspection_context(&session, "req-1", &tool_call);
    assert_eq!(ctx.tool_name, "sql_query");
    assert_eq!(ctx.agent_role, "admin");
    assert!(ctx.arguments_json.contains("SELECT 1"));
}

#[test]
fn inspection_context_defaults_and_metadata() {
    let mut s = session("analyst");
    s.metadata.insert("tenant".to_string(), "acme".to_string());
    let call = InspectedCall { name: "noop".to_string(), arguments_json: None };
    let ctx = build_inspection_context(&s, "r-9", &call);
    assert_eq!(ctx.arguments_json, "{}");
    assert_eq!(ctx.request_id, "r-9");
    assert_eq!(ctx.session_id, "sess-0");
    assert_eq!(ctx.metadata, vec![("tenant".to_string(), "acme".to_string())]);

    let anon = InspectedSession::for_agent("s".to_string(), None);
    assert_eq!(anon.agent_role, "analyst");
    let named = InspectedSession::for_agent("s".to_string(), Some("admin".to_string()));
    assert_eq!(named.agent_role, "admin");
}

#[test]
fn test_pii_plugin_inspection_context_formatting() {
    let s = session("analyst");
    let tool_call = InspectedCall {
        name: "payment_tool".to_string(),
        arguments_json: Some(
            "{\"card\":\"4532-1122-3344-5566\",\"query\":\"SELECT * FROM users\"}".to_string(),
        ),
    };
    let ctx = build_inspection_context(&s, "req-2", &tool_call);
    assert_eq!(ctx.tool_name, "payment_tool");
    assert_eq!(ctx.agent_role, "analyst");
    assert!(ctx.arguments_json.contains("4532-1122-3344-5566"));
}

#[test]
fn test_parse_guardrail_result() {
    let wit_result = wit_types::GuardrailResult {
        decision: wit_types::PolicyDecision::Deny("SQL Injection attempt".into()),
        risk: wit_types::ViolationRisk::Critical,
        execution_time_us: 150,
        metadata: vec![("rule_id".into(), "sql-inject-block".into())],
    };

    let host_summary = parse_guardrail_result(&wit_result);
    assert_eq!(host_summary.decision, HostDecision::Deny("SQL Injection attempt".into()));
    assert_eq!(host_summary.risk, HostRiskRating::Critical);
    assert_eq!(host_summary.execution_time_us, 150);
    assert_eq!(
        host_summary.metadata_get("rule_id").map(String::as_str),
        Some("sql-inject-block")
    );
}

#[test]
fn parse_guardrail_result_later_metadata_wins() {
    let wit_result = wit_types::GuardrailResult {
        decision: wit_types::PolicyDecision::Modify("{}".into()),
        risk: wit_types::ViolationRisk::Medium,
        execution_time_us: 1,
        metadata: vec![
            ("k".into(), "first".into()),
            ("other".into(), "x".into()),
            ("k".into(), "second".into()),
        ],
    };
    let summary = parse_guardrail_result(&wit_result);
    assert_eq!(summary.metadata_get("k").map(String::as_str), Some("second"));
    assert_eq!(summary.metadata.len(), 2);
    assert_eq!(summary.decision, HostDecision::Modify("{}".into()));
    assert_eq!(summary.risk, HostRiskRating::Medium);
    assert_eq!(wasm_verdict_denial(&summary.decision), None);
    assert_eq!(
        wasm_verdict_denial(&HostDecision::Deny("no".into())),
        Some("no".to_string())
    );
}

#[test]
fn test_wit_context_building_and_parsing() {
    let s = session("analyst");
    let tool_call = InspectedCall {
        name: "file_read".to_string(),
        arguments_json: Some("{\"path\":\"/etc/passwd\"}".to_string()),
    };

    let wit_ctx = build_inspection_context(&s, "req-42", &tool_call);
    assert_eq!(wit_ctx.tool_name, "file_read");
    assert_eq!(wit_ctx.agent_role, "analyst");
    assert!(wit_ctx.arguments_json.contains("/etc/passwd"));

    let mock_guest_result = wit_types::GuardrailResult {
        decision: wit_types::PolicyDecision::Deny("Access to sensitive system file blocked".into()),
        risk: wit_types::ViolationRisk::High,
        execution_time_us: 42,
        metadata: vec![("rule_id".into(), "sensitive-file-read".into())],
    };

    let summary = parse_guardrail_result(&mock_guest_result);
    assert_eq!(
        summary.decision,
        HostDecision::Deny("Access to sensitive system file blocked".into())
    );
    assert_eq!(summary.risk, HostRiskRating::High);
    assert_eq!(summary.execution_time_us, 42);
}

#[test]
fn test_pii_host_decision_variant_mapping() {
    let deny_decision = HostDecision::Deny("PII payload detected: Credit Card Number".to_string());
    assert!(matches!(deny_decision, HostDecision::Deny(_)));

    let risk_critical = HostRiskRating::Critical;
    assert_eq!(risk_critical, HostRiskRating::Critical);
}

#[test]
fn test_pool_config_defaults() {
    let config = PoolConfig::default();
    assert_eq!(config.max_size, 32);
    assert_eq!(config.max_memory_bytes, 16 * 1024 * 1024);
}

#[test]
fn test_pool_config_custom_initialization() {
    let config = PoolConfig { max_size: 64, max_memory_bytes: 32 * 1024 * 1024 };
    assert_eq!(config.max_size, 64);
    assert_eq!(config.max_memory_bytes, 32 * 1024 * 1024);
}

#[test]
fn pool_prewarm_counts() {
    assert_eq!(PoolConfig::default().prewarm_count(), 8);
    assert_eq!(PoolConfig { max_size: 3, max_memory_bytes: 1 }.prewarm_count(), 1);
    assert_eq!(PoolConfig { max_size: 0, max_memory_bytes: 1 }.prewarm_count(), 1);
    assert_eq!(DEFAULT_MAX_MEMORY_BYTES, 16 * 1024 * 1024);
}

#[test]
fn engine_initialises() {
    assert!(WasmEngine::new().is_ok());
}

#[test]
fn test_plugin_metadata_semver_parsing() {
    let meta = PluginMetadata::new("pii-filter", "1.2.0", "AegisTeam", "hash-123");
    let ver = meta.parsed_version().expect("Valid semver");
    assert_eq!(ver.major, 1);
    assert_eq!(ver.minor, 2);
    assert_eq!(ver.patch, 0);
}

#[test]
fn invalid_semver_is_invalid_metadata() {
    let meta = PluginMetadata::new("p", "1.0", "a", "h");
    match meta.parsed_version() {
        Err(WasmError::InvalidMetadata(m)) => assert!(m.starts_with("Invalid semver '1.0': ")),
        other => panic!("unexpected {other:?}"),
    }
    let pre = PluginMetadata::new("p", "2.1.0-beta.1+build5", "a", "h").parsed_version().unwrap();
    assert_eq!((pre.major, pre.minor, pre.patch), (2, 1, 0));
    assert_eq!(pre.pre, "beta.1");
    assert_eq!(pre.build, "build5");
}

#[test]
fn test_valid_ed25519_signature_verification() {
    let signing_key = SigningKey::from_bytes(&[42u8; 32]);
    let verifying_key: VerifyingKey = signing_key.verifying_key();

    let wasm_payload = b"\0asm\x0d\x00\x01\x00_test_wasm_bytes";
    let signature: Signature = signing_key.sign(wasm_payload);

    let res = verify_plugin_signature(wasm_payload, &signature.to_bytes(), verifying_key.as_bytes());

    assert!(res.is_ok());
}

#[test]
fn test_invalid_ed25519_signature_rejected() {
    let signing_key = SigningKey::from_bytes(&[42u8; 32]);
    let verifying_key: VerifyingKey = signing_key.verifying_key();

    let wasm_payload = b"\0asm\x0d\x00\x01\x00_test_wasm_bytes";
    let mut bad_signature_bytes = signing_key.sign(wasm_payload).to_bytes();
    bad_signature_bytes[0] ^= 0xFF; // Corrupt signature byte

    let res = verify_plugin_signature(wasm_payload, &bad_signature_bytes, verifying_key.as_bytes());

    assert!(res.is_err());
}

#[test]
fn test_ed25519_signature_verification_success_and_failure() {
    let signing_key = SigningKey::from_bytes(&[99u8; 32]);
    let verifying_key: VerifyingKey = signing_key.verifying_key();

    let payload = b"WASM_COMPONENT_BYTES_MOCK";
    let valid_sig = signing_key.sign(payload);

    let verify_res = verify_plugin_signature(payload, &valid_sig.to_bytes(), verifying_key.as_bytes());
    assert!(verify_res.is_ok());

    let mut invalid_sig = valid_sig.to_bytes();
    invalid_sig[0] ^= 0x01;
    let fail_res = verify_plugin_signature(payload, &invalid_sig, verifying_key.as_bytes());
    assert!(fail_res.is_err());
}

#[test]
fn signature_error_messages() {
    let signing_key = SigningKey::from_bytes(&[7u8; 32]);
    let verifying_key = signing_key.verifying_key();
    let mut bad = signing_key.sign(b"x").to_bytes();
    bad[5] ^= 1;
    match verify_plugin_signature(b"x", &bad, verifying_key.as_bytes()) {
        Err(WasmError::SignatureVerification(m)) => {
            assert!(m.starts_with("Ed25519 signature verification failed: "))
        }
        other => panic!("unexpected {other:?}"),
    }
    // Find 32 bytes that do not decompress to a curve point.
    let mut rejected = None;
    for b in 0..=255u8 {
        let mut key = [b; 32];
        key[31] = 0x7f;
        if VerifyingKey::from_bytes(&key).is_err() {
            rejected = Some(key);
            break;
        }
    }
    let key = rejected.expect("some byte pattern is not a point");
    match verify_plugin_signature(b"x", &bad, &key) {
        Err(WasmError::SignatureVerification(m)) => {
            assert!(m.starts_with("Invalid public key bytes: "))
        }
        other => panic!("unexpected {other:?}"),
    }
}

#[test]
fn test_invalid_wasm_magic_bytes_rejected() {
    let engine = WasmEngine::new().expect("Engine initialised");
    let mut loader: ComponentLoader<Vec<u8>> = ComponentLoader::new(engine);

    let invalid_bytes = b"NOT_A_WASM_FILE";
    let res = loader.load_bytes("bad_plugin", invalid_bytes, |b| Ok(b.to_vec()));

    assert!(res.is_err());
}

#[test]
fn test_wasm_linker_and_loader_initialization() {
    let engine = WasmEngine::new().expect("Engine initialised");
    let loader: ComponentLoader<Vec<u8>> = ComponentLoader::new(engine);
    assert!(loader.get_cached("non-existent").is_none());
}

#[test]
fn test_loader_cache_clearing() {
    let engine = WasmEngine::new().expect("Engine initialised");
    let mut loader: ComponentLoader<Vec<u8>> = ComponentLoader::new(engine);

    assert!(loader.get_cached("plugin_1").is_none());
    loader.clear_cache();
    assert!(loader.get_cached("plugin_1").is_none());
}

#[test]
fn loader_caches_compiled_components() {
    let engine = WasmEngine::new().unwrap();
    let mut loader: ComponentLoader<Vec<u8>> = ComponentLoader::new(engine);
    let wasm = b"\0asm\x0d\x00\x01\x00body";
    assert!(matches!(loader.plan_load("p", wasm), LoadStep::Compile));
    let got = loader.load_bytes("p", wasm, |b| Ok(b[8..].to_vec())).unwrap().clone();
    assert_eq!(got, b"body".to_vec());
    assert!(matches!(loader.plan_load("p", b"garbage"), LoadStep::Cached));
    // A cached plugin is served from the cache whatever bytes are given.
    let again = loader
        .load_bytes("p", b"garbage", |_| -> Result<Vec<u8>, String> { panic!("not compiled again") })
        .unwrap()
        .clone();
    assert_eq!(again, b"body".to_vec());
    assert_eq!(loader.get_cached("p"), Some(&b"body".to_vec()));

    match loader.load_bytes("q", wasm, |_| Err("unexpected end".to_string())) {
        Err(WasmError::Compilation(m)) => {
            assert_eq!(m, "Failed to compile component 'q': unexpected end")
        }
        other => panic!("unexpected {other:?}"),
    }
    assert!(loader.get_cached("q").is_none());
    loader.clear_cache();
    assert!(loader.get_cached("p").is_none());
}

#[test]
fn component_header_rules() {
    assert!(check_component_header("p", b"\0asm\x01\x00\x00\x00").is_ok());
    assert!(check_component_header("p", b"\0asm\x01\x00\x00").is_err());
    match check_component_header("p1", b"\0asn\x01\x00\x00\x00") {
        Err(WasmError::Compilation(m)) => {
            assert_eq!(m, "Invalid WebAssembly header magic bytes for plugin 'p1'")
        }
        other => panic!("unexpected {other:?}"),
    }
}

#[test]
fn plugin_admission_checks_signature_before_version() {
    let signing_key = SigningKey::from_bytes(&[3u8; 32]);
    let pk = signing_key.verifying_key();
    let wasm = b"\0asm\x0d\x00\x01\x00plugin";
    let sig = signing_key.sign(wasm).to_bytes();
    let good = PluginMetadata::new("pii-filter", "2.1.0", "SecurityTeam", "hash99");
    let v = admit_plugin(&good, wasm, &sig, pk.as_bytes()).unwrap();
    assert_eq!(v.major, 2);

    let bad_version = PluginMetadata::new("pii-filter", "two", "SecurityTeam", "hash99");
    assert!(matches!(
        admit_plugin(&bad_version, wasm, &sig, pk.as_bytes()),
        Err(WasmError::InvalidMetadata(_))
    ));
    let mut bad_sig = sig;
    bad_sig[1] ^= 0x10;
    assert!(matches!(
        admit_plugin(&bad_version, wasm, &bad_sig, pk.as_bytes()),
        Err(WasmError::SignatureVerification(_))
    ));
}

#[test]
fn wasm_error_messages() {
    assert_eq!(WasmError::Trap("boom".into()).message(), "WASM trap during execution: boom");
    assert_eq!(
        WasmError::ResourceLimit { resource: "memory".into() }.message(),
        "WASM resource limit exceeded: memory"
    );
    assert_eq!(WasmError::Compilation("bad".into()).message(), "bad");
}

#[test]
fn test_plugin_metadata_parsing_and_hotswapper_init() {
    let engine = WasmEngine::new().expect("Engine created");
    let swapper: PluginHotSwapper<u32> = PluginHotSwapper::new(engine);

    assert!(swapper.get_pool("pii-filter").is_none());

    let meta = PluginMetadata::new("pii-filter", "2.1.0", "SecurityTeam", "hash99");
    assert_eq!(meta.parsed_version().unwrap().major, 2);
}

#[test]
fn hot_swap_replaces_only_the_swapped_plugin() {
    let signing_key = SigningKey::from_bytes(&[11u8; 32]);
    let pk = signing_key.verifying_key();
    let wasm = b"\0asm\x0d\x00\x01\x00plugin";
    let sig = signing_key.sign(wasm).to_bytes();
    let a = PluginMetadata::new("a", "1.0.0", "t", "h");
    let b = PluginMetadata::new("b", "1.0.0", "t", "h");
    let mut swapper: PluginHotSwapper<u32> = PluginHotSwapper::new(WasmEngine::new().unwrap());

    swapper.swap_plugin(&a, wasm, &sig, pk.as_bytes(), |bytes| Ok(bytes.len()), |n| Ok(n as u32)).unwrap();
    swapper.swap_plugin(&b, wasm, &sig, pk.as_bytes(), |_| Ok(0usize), |_| Ok(7u32)).unwrap();
    assert_eq!(swapper.get_pool("a"), Some(&14));
    assert_eq!(swapper.get_pool("b"), Some(&7));

    // Replacing a's pool leaves b's in place.
    swapper.swap_plugin(&a, wasm, &sig, pk.as_bytes(), |_| Ok(0usize), |_| Ok(99u32)).unwrap();
    assert_eq!(swapper.get_pool("a"), Some(&99));
    assert_eq!(swapper.get_pool("b"), Some(&7));

    // Failed swaps change nothing.
    let mut bad_sig = sig;
    bad_sig[0] ^= 1;
    assert!(matches!(
        swapper.swap_plugin(&a, wasm, &bad_sig, pk.as_bytes(), |_| Ok(0usize), |_| Ok(1u32)),
        Err(WasmError::SignatureVerification(_))
    ));
    match swapper.swap_plugin(&a, wasm, &sig, pk.as_bytes(), |_| -> Result<usize, String> {
        Err("bad section".to_string())
    }, |_| Ok(1u32)) {
        Err(WasmError::Compilation(m)) => assert_eq!(m, "Compilation failed for plugin 'a': bad section"),
        other => panic!("unexpected {other:?}"),
    }
    match swapper.swap_plugin(&a, wasm, &sig, pk.as_bytes(), |_| Ok(0usize), |_| {
        Err(WasmError::ModuleLoad("no instance".to_string()))
    }) {
        Err(WasmError::ModuleLoad(m)) => assert_eq!(m, "no instance"),
        other => panic!("unexpected {other:?}"),
    }
    let bad_version = PluginMetadata::new("a", "x.y", "t", "h");
    assert!(matches!(
        swapper.swap_plugin(&bad_version, wasm, &sig, pk.as_bytes(), |_| Ok(0usize), |_| Ok(1u32)),
        Err(WasmError::InvalidMetadata(_))
    ));
    assert_eq!(swapper.get_pool("a"), Some(&99));
    assert_eq!(swapper.get_pool("b"), Some(&7));

    match swap_compile_error("z", "e") {
        WasmError::Compilation(m) => assert_eq!(m, "Compilation failed for plugin 'z': e"),
        other => panic!("unexpected {other:?}"),
    }
}

#[test]
fn instance_pool_prewarms_recycles_and_stays_bounded() {
    let config = PoolConfig { max_size: 8, max_memory_bytes: DEFAULT_MAX_MEMORY_BYTES };
    let counter = std::cell::Cell::new(0u32);
    let mut pool = WasmInstancePool::new(config, || {
        counter.set(counter.get() + 1);
        Ok(counter.get())
    })
    .unwrap();
    assert_eq!(pool.idle_count(), 2);
    assert_eq!(pool.live_count(), 2);
    // Oldest first.
    assert_eq!(pool.checkout(|| Ok(100)).unwrap(), 1);
    assert_eq!(pool.checkout(|| Ok(100)).unwrap(), 2);
    // Empty but below the maximum: a fresh instance is made.
    assert_eq!(pool.checkout(|| Ok(100)).unwrap(), 100);
    assert_eq!(pool.live_count(), 3);
    match pool.checkout(|| Err("out of memory".to_string())) {
        Err(WasmError::ModuleLoad(m)) => {
            assert_eq!(m, "Failed to instantiate component: out of memory")
        }
        other => panic!("unexpected {other:?}"),
    }
    assert_eq!(pool.live_count(), 3);
    for i in 0..5 {
        assert_eq!(pool.checkout(|| Ok(200 + i)).unwrap(), 200 + i);
    }
    // Eight instances exist and all are checked out: no ninth is made.
    assert_eq!(pool.live_count(), 8);
    match pool.checkout(|| -> Result<u32, String> { panic!("must not instantiate") }) {
        Err(WasmError::ResourceLimit { resource }) => assert_eq!(resource, "pool instances"),
        other => panic!("unexpected {other:?}"),
    }
    // Handing one back makes it available again.
    pool.check_in(100);
    assert_eq!(pool.idle_count(), 1);
    assert_eq!(pool.checkout(|| Ok(0)).unwrap(), 100);
    assert_eq!(pool.live_count(), 8);

    let small = PoolConfig { max_size: 1, max_memory_bytes: 1 };
    let one: WasmInstancePool<u8> = WasmInstancePool::new(small, || Ok(5)).unwrap();
    assert_eq!(one.idle_count(), 1);
    match WasmInstancePool::<u8>::new(small, || Err("bad component".to_string())) {
        Err(WasmError::ModuleLoad(m)) => {
            assert_eq!(m, "Failed to instantiate component: bad component")
        }
        other => panic!("unexpected {:?}", other.map(|_| ())),
    }
}

#[test]
fn evaluation_outcomes() {
    let deny = HostPolicySummary {
        decision: HostDecision::Deny("blocked".into()),
        risk: HostRiskRating::High,
        execution_time_us: 1,
        metadata: StringMap::new(),
    };
    assert_eq!(wasm_evaluation_denial(&Ok(deny)), Some("blocked".to_string()));
    let modify = HostPolicySummary {
        decision: HostDecision::Modify("{}".into()),
        risk: HostRiskRating::Low,
        execution_time_us: 1,
        metadata: StringMap::new(),
    };
    assert_eq!(wasm_evaluation_denial(&Ok(modify)), None);
    // A failed evaluation lets the request through.
    assert_eq!(wasm_evaluation_denial(&Err(evaluation_trap("oops"))), None);
    match evaluation_trap("oops") {
        WasmError::Trap(m) => assert_eq!(m, "WASM evaluation trap: oops"),
        other => panic!("unexpected {other:?}"),
    }
}
