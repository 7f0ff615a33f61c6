//! The WASM execution engine handle.

use crate::wasm::error::WasmError;
use vstd::prelude::*;

verus! {

/// The central WASM execution engine. It holds no runtime state yet; it is the
/// handle that the rest of the WASM host is built around.
#[derive(Debug)]
pub struct WasmEngine {
    _private: (),
}

impl WasmEngine {
    /// Creates a new `WasmEngine` with the default configuration; this cannot fail.
    pub fn new() -> (r: Result<Self, WasmError>)
        ensures
            r is Ok,
    {
        Ok(WasmEngine { _private: () })
    }
}

impl Default for WasmEngine {
    /// The engine `new` creates.
    fn default() -> (r: Self) {
        WasmEngine { _private: () }
    }
}

} // verus!
