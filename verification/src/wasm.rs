//! Host side of the WASM guardrail plugins: the WIT contract's types, the
//! mapping of plugin results to host decisions, plugin metadata and signature
//! checks, and the sandbox settings.

pub mod engine;
pub mod error;
pub mod hotswap;
pub mod loader;
pub mod mapping;
pub mod metadata;
pub mod pool;
pub mod security;
pub mod wit_types;
