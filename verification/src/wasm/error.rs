//! Errors of the WASM runtime.

use vstd::prelude::*;

verus! {

/// Errors that can be emitted by the WASM runtime.
#[derive(Debug)]
pub enum WasmError {
    /// Failed to initialise the engine.
    EngineInit(String),
    /// Failed to compile or instantiate a module or component.
    ModuleLoad(String),
    /// A trap occurred during execution.
    Trap(String),
    /// The guest exceeded its resource quota.
    ResourceLimit {
        /// The exhausted resource (e.g. "memory", "fuel").
        resource: String,
    },
    /// Plugin metadata is malformed.
    InvalidMetadata(String),
    /// Component bytes were rejected before or during compilation.
    Compilation(String),
    /// A plugin signature did not verify.
    SignatureVerification(String),
}

impl WasmError {
    /// The error's message: a fixed description followed by the detail for the
    /// runtime errors; the detail itself for metadata, compilation and signature
    /// errors, whose detail already describes them.
    pub fn message(&self) -> (r: String)
        ensures
            r@ == (match self {
                WasmError::EngineInit(d) => "WASM engine initialisation failed: "@ + d@,
                WasmError::ModuleLoad(d) => "WASM module load failed: "@ + d@,
                WasmError::Trap(d) => "WASM trap during execution: "@ + d@,
                WasmError::ResourceLimit { resource } => "WASM resource limit exceeded: "@
                    + resource@,
                WasmError::InvalidMetadata(d) => d@,
                WasmError::Compilation(d) => d@,
                WasmError::SignatureVerification(d) => d@,
            }),
    {
        let (prefix, detail): (&str, &String) = match self {
            WasmError::EngineInit(d) => ("WASM engine initialisation failed: ", d),
            WasmError::ModuleLoad(d) => ("WASM module load failed: ", d),
            WasmError::Trap(d) => ("WASM trap during execution: ", d),
            WasmError::ResourceLimit { resource } => ("WASM resource limit exceeded: ", resource),
            WasmError::InvalidMetadata(d) => ("", d),
            WasmError::Compilation(d) => ("", d),
            WasmError::SignatureVerification(d) => ("", d),
        };
        let mut r = String::from_str(prefix);
        r.append(detail.as_str());
        proof {
            reveal_strlit("");
        }
        r
    }
}

} // verus!
