//! Component loading: the header check a component binary must pass before the
//! engine compiles it, and the cache of compiled components by plugin id.

use crate::strmap::KeyedMap;
use crate::wasm::engine::WasmEngine;
use crate::wasm::error::WasmError;
use vstd::prelude::*;

verus! {

/// A component binary is worth compiling when it has at least eight bytes and
/// starts with the WebAssembly magic `\0asm`.
pub open spec fn has_wasm_header(bytes: Seq<u8>) -> bool {
    bytes.len() >= 8 && bytes[0] == 0u8 && bytes[1] == 0x61u8 && bytes[2] == 0x73u8 && bytes[3]
        == 0x6du8
}

/// Rejects binaries without the WebAssembly header, naming the plugin.
pub fn check_component_header(plugin_id: &str, bytes: &[u8]) -> (r: Result<(), WasmError>)
    ensures
        r is Ok <==> has_wasm_header(bytes@),
        r matches Err(e) ==> e matches WasmError::Compilation(m) && m@
            == "Invalid WebAssembly header magic bytes for plugin '"@ + plugin_id@ + "'"@,
{
    if bytes.len() < 8 || bytes[0] != 0u8 || bytes[1] != 0x61u8 || bytes[2] != 0x73u8 || bytes[3]
        != 0x6du8 {
        let mut m = String::from_str("Invalid WebAssembly header magic bytes for plugin '");
        m.append(plugin_id);
        m.append("'");
        return Err(WasmError::Compilation(m));
    }
    Ok(())
}

/// What loading a plugin's binary takes.
pub enum LoadStep {
    /// The plugin's component is cached; it is used whatever bytes are given.
    Cached,
    /// The binary is refused before compilation.
    Rejected(WasmError),
    /// The binary must be compiled.
    Compile,
}

/// Loads components and caches them by plugin id. `C` is the compiled
/// component, which the engine produces.
pub struct ComponentLoader<C> {
    engine: WasmEngine,
    cache: KeyedMap<C>,
}

impl<C> ComponentLoader<C> {
    /// The cached components by plugin id.
    pub closed spec fn cached(&self) -> Map<Seq<char>, C> {
        self.cache@
    }

    /// The engine this was built with.
    pub closed spec fn engine_handle(&self) -> WasmEngine {
        self.engine
    }

    /// A loader for `engine`, with an empty cache.
    pub fn new(engine: WasmEngine) -> (r: Self)
        ensures
            r.cached() == Map::<Seq<char>, C>::empty(),
            r.engine_handle() == engine,
    {
        ComponentLoader { engine, cache: KeyedMap::new() }
    }

    /// The engine components are compiled with.
    pub fn engine(&self) -> (r: &WasmEngine)
        ensures
            *r == self.engine_handle(),
    {
        &self.engine
    }

    /// The cached component of `plugin_id`, if any.
    pub fn get_cached(&self, plugin_id: &str) -> (r: Option<&C>)
        ensures
            r is Some <==> self.cached().dom().contains(plugin_id@),
            r matches Some(c) ==> *c == self.cached()[plugin_id@],
    {
        self.cache.get(plugin_id)
    }

    /// The first step of loading `bytes` as `plugin_id`: the cache is consulted
    /// first; a binary without the WebAssembly header is refused; anything else
    /// is compiled.
    pub fn plan_load(&self, plugin_id: &str, bytes: &[u8]) -> (r: LoadStep)
        ensures
            self.cached().dom().contains(plugin_id@) ==> r is Cached,
            !self.cached().dom().contains(plugin_id@) && !has_wasm_header(bytes@) ==> (r matches LoadStep::Rejected(
                WasmError::Compilation(m),
            ) && m@ == "Invalid WebAssembly header magic bytes for plugin '"@ + plugin_id@ + "'"@),
            !self.cached().dom().contains(plugin_id@) && has_wasm_header(bytes@) ==> r is Compile,
    {
        if self.cache.get(plugin_id).is_some() {
            return LoadStep::Cached;
        }
        match check_component_header(plugin_id, bytes) {
            Ok(()) => LoadStep::Compile,
            Err(e) => LoadStep::Rejected(e),
        }
    }

    /// Takes the outcome of compiling `plugin_id`'s binary: a compiled component
    /// is cached and returned; a compiler error becomes a `Compilation` error
    /// naming the plugin, and the cache is left as it was.
    pub fn finish_load(&mut self, plugin_id: &str, compiled: Result<C, String>) -> (r: Result<
        &C,
        WasmError,
    >)
        ensures
            match compiled {
                Ok(c) => final(self).cached() == old(self).cached().insert(plugin_id@, c) && (
                r matches Ok(got) && *got == c),
                Err(e) => final(self).cached() == old(self).cached() && (r matches Err(
                    WasmError::Compilation(m),
                ) && m@ == "Failed to compile component '"@ + plugin_id@ + "': "@ + e@),
            },
    {
        match compiled {
            Ok(c) => {
                self.cache.insert(String::from_str(plugin_id), c);
                match self.cache.get(plugin_id) {
                    Some(got) => Ok(got),
                    None => Err(WasmError::Compilation(String::new())),
                }
            },
            Err(e) => {
                let mut m = String::from_str("Failed to compile component '");
                m.append(plugin_id);
                m.append("': ");
                m.append(e.as_str());
                Err(WasmError::Compilation(m))
            },
        }
    }

    /// Loads `bytes` as `plugin_id`: the cached component when there is one
    /// (the bytes are then ignored and `compile` is not called); a
    /// `Compilation` error for a binary without the WebAssembly header;
    /// otherwise the result of `compile`, cached when it succeeds.
    pub fn load_bytes<F>(&mut self, plugin_id: &str, bytes: &[u8], compile: F) -> (r: Result<
        &C,
        WasmError,
    >) where F: FnOnce(&[u8]) -> Result<C, String>
        requires
            call_requires(compile, (bytes,)),
        ensures
            old(self).cached().dom().contains(plugin_id@) ==> ({
                &&& final(self).cached() == old(self).cached()
                &&& r matches Ok(got) && *got == old(self).cached()[plugin_id@]
            }),
            !old(self).cached().dom().contains(plugin_id@) && !has_wasm_header(bytes@) ==> ({
                &&& final(self).cached() == old(self).cached()
                &&& r matches Err(WasmError::Compilation(m)) && m@
                    == "Invalid WebAssembly header magic bytes for plugin '"@ + plugin_id@ + "'"@
            }),
            !old(self).cached().dom().contains(plugin_id@) && has_wasm_header(bytes@) ==> exists|
                compiled: Result<C, String>,
            |
                call_ensures(compile, (bytes,), compiled) && match compiled {
                    Ok(c) => ({
                        &&& final(self).cached() == old(self).cached().insert(plugin_id@, c)
                        &&& r matches Ok(got) && *got == c
                    }),
                    Err(e) => ({
                        &&& final(self).cached() == old(self).cached()
                        &&& r matches Err(WasmError::Compilation(m)) && m@
                            == "Failed to compile component '"@ + plugin_id@ + "': "@ + e@
                    }),
                },
    {
        match self.plan_load(plugin_id, bytes) {
            LoadStep::Cached => match self.cache.get(plugin_id) {
                Some(c) => Ok(c),
                None => Err(WasmError::Compilation(String::new())),
            },
            LoadStep::Rejected(e) => Err(e),
            LoadStep::Compile => {
                let compiled = compile(bytes);
                self.finish_load(plugin_id, compiled)
            },
        }
    }

    /// Empties the cache.
    pub fn clear_cache(&mut self)
        ensures
            final(self).cached() == Map::<Seq<char>, C>::empty(),
    {
        self.cache.clear();
    }
}

} // verus!
