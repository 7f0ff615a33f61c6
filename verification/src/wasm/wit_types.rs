//! Types of the `aegis:guardrail` WIT contract between host and plugins.

use vstd::prelude::*;

verus! {

/// What a plugin inspects: one tool call in its session.
#[derive(Debug, Clone)]
pub struct InspectionContext {
    /// Request identifier.
    pub request_id: String,
    /// Session identifier.
    pub session_id: String,
    /// Role of the calling agent.
    pub agent_role: String,
    /// Called tool.
    pub tool_name: String,
    /// Tool arguments as JSON text.
    pub arguments_json: String,
    /// Session metadata pairs.
    pub metadata: Vec<(String, String)>,
}

/// A plugin's verdict.
#[derive(Debug, Clone)]
pub enum PolicyDecision {
    /// Pass.
    Allow,
    /// Block, with a reason.
    Deny(String),
    /// Pass with a rewritten JSON payload.
    Modify(String),
}

/// A plugin's risk assessment.
#[derive(Debug, Clone, Copy, PartialEq, Eq)]
pub enum ViolationRisk {
    /// Low risk.
    Low,
    /// Medium risk.
    Medium,
    /// High risk.
    High,
    /// Critical risk.
    Critical,
}

/// What a plugin returns for one inspection.
#[derive(Debug, Clone)]
pub struct GuardrailResult {
    /// The verdict.
    pub decision: PolicyDecision,
    /// The assessed risk.
    pub risk: ViolationRisk,
    /// Plugin execution time in microseconds.
    pub execution_time_us: u64,
    /// Metadata pairs.
    pub metadata: Vec<(String, String)>,
}

} // verus!
