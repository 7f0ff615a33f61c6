//! Mapping between gateway-side request data and the WIT contract types.

use crate::strmap::{entries_map, pair_views, StringMap};
use crate::wasm::error::WasmError;
use crate::wasm::wit_types::{
    GuardrailResult, InspectionContext, PolicyDecision, ViolationRisk,
};
use vstd::prelude::*;

verus! {

/// The session data a plugin inspection reads.
pub struct InspectedSession {
    /// Session identifier.
    pub session_id: String,
    /// Role of the session's agent.
    pub agent_role: String,
    /// Session metadata.
    pub metadata: StringMap,
}

/// The tool call a plugin inspection reads.
pub struct InspectedCall {
    /// Called tool.
    pub name: String,
    /// Arguments serialised as JSON text, if the call has any.
    pub arguments_json: Option<String>,
}

/// Builds the WIT inspection context for a tool call in a session: arguments
/// default to `{}`; session metadata is passed on pair by pair.
pub fn build_inspection_context(
    session: &InspectedSession,
    request_id: &str,
    tool_call: &InspectedCall,
) -> (r: InspectionContext)
    ensures
        r.request_id@ == request_id@,
        r.session_id@ == session.session_id@,
        r.agent_role@ == session.agent_role@,
        r.tool_name@ == tool_call.name@,
        r.arguments_json@ == (match tool_call.arguments_json {
            Some(a) => a@,
            None => "{}"@,
        }),
        pair_views(r.metadata@) == session.metadata.pairs(),
{
    let arguments_json = match &tool_call.arguments_json {
        Some(a) => a.clone(),
        None => String::from_str("{}"),
    };
    let source = session.metadata.entries();
    let mut metadata: Vec<(String, String)> = Vec::new();
    let mut i: usize = 0;
    while i < source.len()
        invariant
            i <= source@.len(),
            pair_views(metadata@) =~= pair_views(source@).take(i as int),
        decreases source@.len() - i,
    {
        let (k, v) = &source[i];
        let ghost before = metadata@;
        metadata.push((k.clone(), v.clone()));
        assert(metadata@ == before.push(metadata@.last()));
        assert(pair_views(metadata@) =~= pair_views(before).push((k@, v@)));
        assert(pair_views(source@)[i as int] == (k@, v@));
        assert(pair_views(source@).take(i + 1) =~= pair_views(source@).take(i as int).push(
            (k@, v@),
        ));
        i = i + 1;
    }
    assert(pair_views(source@).take(source@.len() as int) =~= pair_views(source@));
    InspectionContext {
        request_id: String::from_str(request_id),
        session_id: session.session_id.clone(),
        agent_role: session.agent_role.clone(),
        tool_name: tool_call.name.clone(),
        arguments_json,
        metadata,
    }
}

/// A plugin verdict on the host side.
#[derive(Debug, Clone, PartialEq, Eq)]
pub enum HostDecision {
    /// Request passed inspection.
    Allow,
    /// Request blocked, with the reason.
    Deny(String),
    /// Request allowed with a rewritten JSON payload.
    Modify(String),
}

/// A risk rating on the host side.
#[derive(Debug, Clone, Copy, PartialEq, Eq)]
pub enum HostRiskRating {
    /// Low risk.
    Low,
    /// Medium risk.
    Medium,
    /// High risk.
    High,
    /// Critical risk.
    Critical,
}

/// Host-side summary of an evaluated plugin decision.
#[derive(Debug)]
pub struct HostPolicySummary {
    /// The verdict.
    pub decision: HostDecision,
    /// The assessed risk.
    pub risk: HostRiskRating,
    /// Plugin execution time in microseconds.
    pub execution_time_us: u64,
    /// Metadata returned by the plugin.
    pub metadata: StringMap,
}

/// Whether a host decision mirrors a plugin decision: the variants agree and
/// any carried reason is equal.
pub open spec fn decision_matches(h: HostDecision, w: PolicyDecision) -> bool {
    match (h, w) {
        (HostDecision::Allow, PolicyDecision::Allow) => true,
        (HostDecision::Deny(a), PolicyDecision::Deny(b)) => a@ == b@,
        (HostDecision::Modify(a), PolicyDecision::Modify(b)) => a@ == b@,
        _ => false,
    }
}

/// The severity level of a plugin's risk assessment, from 0 (low) to 3 (critical).
pub open spec fn violation_level(w: ViolationRisk) -> int {
    match w {
        ViolationRisk::Low => 0,
        ViolationRisk::Medium => 1,
        ViolationRisk::High => 2,
        ViolationRisk::Critical => 3,
    }
}

/// The severity level of a host risk rating, from 0 (low) to 3 (critical).
pub open spec fn host_level(h: HostRiskRating) -> int {
    match h {
        HostRiskRating::Low => 0,
        HostRiskRating::Medium => 1,
        HostRiskRating::High => 2,
        HostRiskRating::Critical => 3,
    }
}

/// The host rating keeps the level of the plugin's risk: a rating is never
/// raised or lowered, and different risks give different ratings.
pub proof fn law_risk_rating_keeps_level(w: ViolationRisk, v: ViolationRisk)
    ensures
        host_level(risk_of(w)) == violation_level(w),
        risk_of(w) == risk_of(v) ==> w == v,
        violation_level(w) < violation_level(v) ==> host_level(risk_of(w)) < host_level(
            risk_of(v),
        ),
{
}

/// The host rating corresponding to a WIT risk.
pub open spec fn risk_of(w: ViolationRisk) -> HostRiskRating {
    match w {
        ViolationRisk::Low => HostRiskRating::Low,
        ViolationRisk::Medium => HostRiskRating::Medium,
        ViolationRisk::High => HostRiskRating::High,
        ViolationRisk::Critical => HostRiskRating::Critical,
    }
}

impl<'a> From<&'a PolicyDecision> for HostDecision {
    /// Converts a plugin decision: each variant keeps its reason or payload.
    fn from(val: &'a PolicyDecision) -> (r: Self) {
        match val {
            PolicyDecision::Allow => HostDecision::Allow,
            PolicyDecision::Deny(reason) => HostDecision::Deny(reason.clone()),
            PolicyDecision::Modify(payload) => HostDecision::Modify(payload.clone()),
        }
    }
}

impl<'a> vstd::std_specs::convert::FromSpecImpl<&'a PolicyDecision> for HostDecision {
    open spec fn obeys_from_spec() -> bool {
        true
    }

    open spec fn from_spec(val: &'a PolicyDecision) -> HostDecision {
        match *val {
            PolicyDecision::Allow => HostDecision::Allow,
            PolicyDecision::Deny(reason) => HostDecision::Deny(reason),
            PolicyDecision::Modify(payload) => HostDecision::Modify(payload),
        }
    }
}

impl From<ViolationRisk> for HostRiskRating {
    /// Converts a plugin risk level to the host rating of that level.
    fn from(val: ViolationRisk) -> (r: Self)
        ensures
            host_level(r) == violation_level(val),
    {
        match val {
            ViolationRisk::Low => HostRiskRating::Low,
            ViolationRisk::Medium => HostRiskRating::Medium,
            ViolationRisk::High => HostRiskRating::High,
            ViolationRisk::Critical => HostRiskRating::Critical,
        }
    }
}

impl vstd::std_specs::convert::FromSpecImpl<ViolationRisk> for HostRiskRating {
    open spec fn obeys_from_spec() -> bool {
        true
    }

    open spec fn from_spec(val: ViolationRisk) -> HostRiskRating {
        risk_of(val)
    }
}

/// Converts a plugin result into a host summary. Metadata pairs are collected
/// into a map; a later pair for a key replaces an earlier one.
pub fn parse_guardrail_result(result: &GuardrailResult) -> (r: HostPolicySummary)
    ensures
        decision_matches(r.decision, result.decision),
        r.risk == risk_of(result.risk),
        host_level(r.risk) == violation_level(result.risk),
        r.execution_time_us == result.execution_time_us,
        r.metadata@ == entries_map(pair_views(result.metadata@)),
{
    let mut metadata = StringMap::new();
    let mut i: usize = 0;
    let ghost pairs = pair_views(result.metadata@);
    assert(pairs.take(0) =~= Seq::<(Seq<char>, Seq<char>)>::empty());
    while i < result.metadata.len()
        invariant
            i <= result.metadata@.len(),
            pairs == pair_views(result.metadata@),
            metadata@ == entries_map(pairs.take(i as int)),
        decreases result.metadata@.len() - i,
    {
        let (k, v) = &result.metadata[i];
        assert(pairs.take(i + 1).drop_last() =~= pairs.take(i as int));
        assert(pairs.take(i + 1).last() == (k@, v@));
        metadata.insert(k.clone(), v.clone());
        i = i + 1;
    }
    assert(pairs.take(result.metadata@.len() as int) =~= pairs);
    HostPolicySummary {
        decision: HostDecision::from(&result.decision),
        risk: HostRiskRating::from(result.risk),
        execution_time_us: result.execution_time_us,
        metadata,
    }
}

impl HostPolicySummary {
    /// The metadata value for `key`, if the plugin returned one.
    pub fn metadata_get(&self, key: &str) -> (r: Option<&String>)
        ensures
            r is Some <==> self.metadata@.dom().contains(key@),
            r matches Some(v) ==> v@ == self.metadata@[key@],
    {
        self.metadata.get(key)
    }
}

} // verus!

verus! {

impl InspectedSession {
    /// The session a gateway-side plugin inspection runs in: the agent's role,
    /// or `analyst` for a request without an extracted identity; no metadata.
    pub fn for_agent(session_id: String, agent_role: Option<String>) -> (r: Self)
        ensures
            r.session_id@ == session_id@,
            r.agent_role@ == (match agent_role {
                Some(a) => a@,
                None => "analyst"@,
            }),
            r.metadata@ == Map::<Seq<char>, Seq<char>>::empty(),
    {
        let role = match agent_role {
            Some(a) => a,
            None => String::from_str("analyst"),
        };
        InspectedSession { session_id, agent_role: role, metadata: StringMap::new() }
    }
}

/// The refusal a plugin verdict amounts to: its reason when it denies; none
/// when it allows or rewrites the payload.
pub fn wasm_verdict_denial(decision: &HostDecision) -> (r: Option<String>)
    ensures
        match decision {
            HostDecision::Deny(reason) => r matches Some(m) && m@ == reason@,
            _ => r is None,
        },
{
    match decision {
        HostDecision::Deny(reason) => Some(reason.clone()),
        _ => None,
    }
}

/// The refusal a plugin evaluation amounts to: that of the verdict when the
/// evaluation produced one; none when it failed (a failing evaluation lets
/// the request through).
pub fn wasm_evaluation_denial(outcome: &Result<HostPolicySummary, WasmError>) -> (r: Option<String>)
    ensures
        match outcome {
            Ok(summary) => match summary.decision {
                HostDecision::Deny(reason) => r matches Some(m) && m@ == reason@,
                _ => r is None,
            },
            Err(_) => r is None,
        },
{
    match outcome {
        Ok(summary) => wasm_verdict_denial(&summary.decision),
        Err(_) => None,
    }
}

/// The error of a plugin that trapped during evaluation.
pub fn evaluation_trap(detail: &str) -> (r: WasmError)
    ensures
        r matches WasmError::Trap(m) && m@ == "WASM evaluation trap: "@ + detail@,
{
    let mut m = String::from_str("WASM evaluation trap: ");
    m.append(detail);
    WasmError::Trap(m)
}

} // verus!
