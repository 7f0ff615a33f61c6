//! Hot-swapping of plugin pools: the checks a plugin passes before it goes into
//! service, and the table of active pools by plugin id.

use crate::strmap::KeyedMap;
use crate::wasm::engine::WasmEngine;
use crate::wasm::error::WasmError;
use crate::wasm::metadata::{semver_parse, version_is, PluginMetadata, SemVersion};
use crate::wasm::security::{signature_failure, verify_plugin_signature};
use vstd::prelude::*;

verus! {

/// Admits a plugin for hot-swapping: its signature is verified first, then its
/// version is parsed. Returns the parsed version; a bad signature is reported
/// before a bad version.
pub fn admit_plugin(
    metadata: &PluginMetadata,
    wasm_bytes: &[u8],
    signature_bytes: &[u8; 64],
    public_key_bytes: &[u8; 32],
) -> (r: Result<SemVersion, WasmError>)
    ensures
        match signature_failure(public_key_bytes@, wasm_bytes@, signature_bytes@) {
            Some(msg) => r matches Err(WasmError::SignatureVerification(m)) && m@ == msg,
            None => match semver_parse(metadata.version@) {
                Ok(parsed) => r matches Ok(v) && version_is(v, parsed),
                Err(e) => r matches Err(WasmError::InvalidMetadata(m)) && m@ == "Invalid semver '"@
                    + metadata.version@ + "': "@ + e,
            },
        },
{
    match verify_plugin_signature(wasm_bytes, signature_bytes, public_key_bytes) {
        Ok(()) => {},
        Err(e) => return Err(e),
    }
    metadata.parsed_version()
}

/// The error of a plugin whose component does not compile during a swap.
pub fn swap_compile_error(plugin_id: &str, detail: &str) -> (r: WasmError)
    ensures
        r matches WasmError::Compilation(m) && m@ == "Compilation failed for plugin '"@ + plugin_id@
            + "': "@ + detail@,
{
    let mut m = String::from_str("Compilation failed for plugin '");
    m.append(plugin_id);
    m.append("': ");
    m.append(detail);
    WasmError::Compilation(m)
}

/// The table of active plugin pools, by plugin id. `P` is a plugin's instance
/// pool, which the engine builds for an admitted plugin.
pub struct PluginHotSwapper<P> {
    engine: WasmEngine,
    pools: KeyedMap<P>,
}

impl<P> PluginHotSwapper<P> {
    /// The active pools by plugin id.
    pub closed spec fn pools(&self) -> Map<Seq<char>, P> {
        self.pools@
    }

    /// The engine this was built with.
    pub closed spec fn engine_handle(&self) -> WasmEngine {
        self.engine
    }

    /// A swapper for `engine` with no active pool.
    pub fn new(engine: WasmEngine) -> (r: Self)
        ensures
            r.pools() == Map::<Seq<char>, P>::empty(),
            r.engine_handle() == engine,
    {
        PluginHotSwapper { engine, pools: KeyedMap::new() }
    }

    /// The engine plugins are compiled with.
    pub fn engine(&self) -> (r: &WasmEngine)
        ensures
            *r == self.engine_handle(),
    {
        &self.engine
    }

    /// The active pool of `plugin_id`, if any.
    pub fn get_pool(&self, plugin_id: &str) -> (r: Option<&P>)
        ensures
            r is Some <==> self.pools().dom().contains(plugin_id@),
            r matches Some(p) ==> *p == self.pools()[plugin_id@],
    {
        self.pools.get(plugin_id)
    }

    /// Hot-swaps a plugin: its signature is verified, its version parsed, its
    /// component compiled with `compile` and a pool built from it with
    /// `build_pool`; only then does the pool go into service under the
    /// plugin's id, replacing that plugin's previous pool. A swap that fails at
    /// any step leaves every active pool in place, and a swap that succeeds
    /// changes no other plugin's pool.
    pub fn swap_plugin<C, F, G>(
        &mut self,
        metadata: &PluginMetadata,
        wasm_bytes: &[u8],
        signature_bytes: &[u8; 64],
        public_key_bytes: &[u8; 32],
        compile: F,
        build_pool: G,
    ) -> (r: Result<(), WasmError>) where
        F: FnOnce(&[u8]) -> Result<C, String>,
        G: FnOnce(C) -> Result<P, WasmError>,

        requires
            call_requires(compile, (wasm_bytes,)),
            forall|c: C| call_requires(build_pool, (c,)),
        ensures
            r is Err ==> final(self).pools() == old(self).pools(),
            r is Ok ==> exists|p: P|
                final(self).pools() == old(self).pools().insert(metadata.plugin_id@, p),
            match signature_failure(public_key_bytes@, wasm_bytes@, signature_bytes@) {
                Some(msg) => r matches Err(WasmError::SignatureVerification(m)) && m@ == msg,
                None => match semver_parse(metadata.version@) {
                    Err(e) => r matches Err(WasmError::InvalidMetadata(m)) && m@
                        == "Invalid semver '"@ + metadata.version@ + "': "@ + e,
                    Ok(_) => exists|compiled: Result<C, String>|
                        call_ensures(compile, (wasm_bytes,), compiled) && match compiled {
                            Err(e) => r matches Err(WasmError::Compilation(m)) && m@
                                == "Compilation failed for plugin '"@ + metadata.plugin_id@
                                + "': "@ + e@,
                            Ok(c) => exists|built: Result<P, WasmError>|
                                call_ensures(build_pool, (c,), built) && match built {
                                    Err(e) => r == Err::<(), WasmError>(e),
                                    Ok(p) => r is Ok && final(self).pools() == old(
                                        self,
                                    ).pools().insert(metadata.plugin_id@, p),
                                },
                        },
                },
            },
    {
        match admit_plugin(metadata, wasm_bytes, signature_bytes, public_key_bytes) {
            Ok(_) => {},
            Err(e) => return Err(e),
        }
        let component = match compile(wasm_bytes) {
            Ok(c) => c,
            Err(e) => return Err(swap_compile_error(metadata.plugin_id.as_str(), e.as_str())),
        };
        let pool = match build_pool(component) {
            Ok(p) => p,
            Err(e) => return Err(e),
        };
        self.install_pool(metadata, pool);
        Ok(())
    }

    /// Puts the pool built for an admitted plugin into service under its id,
    /// replacing that plugin's previous pool; every other plugin keeps its pool.
    pub fn install_pool(&mut self, metadata: &PluginMetadata, pool: P)
        ensures
            final(self).pools() == old(self).pools().insert(metadata.plugin_id@, pool),
    {
        self.pools.insert(metadata.plugin_id.clone(), pool);
    }
}

} // verus!
