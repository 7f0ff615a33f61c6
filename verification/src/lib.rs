//! Verified core of the AegisMCP gateway: request routing decisions, the
//! guardrail pipeline, W3C trace context handling, SSE helpers, WASM policy
//! result mapping and the PII guardrail plugin's decision logic.

pub mod config;
pub mod headers;
pub mod middleware;
pub mod pii;
pub mod router;
pub mod sse;
pub mod strmap;
pub mod telemetry;
pub mod text;
pub mod wasm;
