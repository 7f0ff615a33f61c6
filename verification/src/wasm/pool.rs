//! Sandbox sizing of pooled plugin instances.

use crate::wasm::error::WasmError;
use vstd::prelude::*;

verus! {

/// Default maximum memory per WASM plugin instance: 16 MiB.
pub const DEFAULT_MAX_MEMORY_BYTES: usize = 16777216;

/// Configuration of a pool of plugin instances.
#[derive(Debug, Clone, Copy)]
pub struct PoolConfig {
    /// Maximum number of pooled instances.
    pub max_size: usize,
    /// Maximum memory per instance, in bytes.
    pub max_memory_bytes: usize,
}

impl Default for PoolConfig {
    /// 32 instances of at most 16 MiB each.
    fn default() -> (r: Self)
        ensures
            r.max_size == 32,
            r.max_memory_bytes == 16 * 1024 * 1024,
    {
        PoolConfig { max_size: 32, max_memory_bytes: DEFAULT_MAX_MEMORY_BYTES }
    }
}

impl PoolConfig {

    /// Number of instances created up front when a pool starts: a quarter of
    /// the maximum size, at least one.
    pub fn prewarm_count(&self) -> (r: usize)
        ensures
            r == if self.max_size / 4 >= 1 {
                self.max_size / 4
            } else {
                1
            },
    {
        let q = self.max_size / 4;
        if q >= 1 {
            q
        } else {
            1
        }
    }
}

} // verus!

verus! {

/// The error of an instance that could not be created.
pub fn instantiation_error(detail: &str) -> (r: WasmError)
    ensures
        r matches WasmError::ModuleLoad(m) && m@ == "Failed to instantiate component: "@ + detail@,
{
    let mut m = String::from_str("Failed to instantiate component: ");
    m.append(detail);
    WasmError::ModuleLoad(m)
}

/// The error of a checkout from a pool whose every instance is in use.
pub fn pool_exhausted_error() -> (r: WasmError)
    ensures
        r matches WasmError::ResourceLimit { resource } && resource@ == "pool instances"@,
{
    WasmError::ResourceLimit { resource: String::from_str("pool instances") }
}

/// A plugin's pool of instances. It counts the instances that exist (idle or
/// checked out) and keeps the idle ones in the order they were handed back.
/// Checkout takes the oldest idle instance, and creates one only while fewer
/// than the maximum size exist, so at most `max_size` instances ever exist at
/// once. `T` is an instantiated plugin, which the engine creates.
pub struct WasmInstancePool<T> {
    config: PoolConfig,
    idle: Vec<T>,
    live: usize,
}

impl<T> WasmInstancePool<T> {
    #[verifier::type_invariant]
    closed spec fn bounded(self) -> bool {
        0 < self.config.max_size && self.idle@.len() <= self.live && self.live
            <= self.config.max_size
    }

    /// The pool's configuration.
    pub closed spec fn config(&self) -> PoolConfig {
        self.config
    }

    /// The idle instances, oldest first.
    pub closed spec fn idle(&self) -> Seq<T> {
        self.idle@
    }

    /// The number of instances that exist: the idle ones and those checked out.
    pub closed spec fn live(&self) -> nat {
        self.live as nat
    }

    /// An empty pool. The size must be positive: a pool pre-warms at least one
    /// instance.
    pub fn empty(config: PoolConfig) -> (r: Self)
        requires
            config.max_size > 0,
        ensures
            r.config() == config,
            r.idle() == Seq::<T>::empty(),
            r.live() == 0,
    {
        WasmInstancePool { config, idle: Vec::new(), live: 0 }
    }

    /// A pool pre-warmed with `prewarm_count` idle instances made by `create`.
    /// The first failure to create one is returned instead, as a `ModuleLoad`
    /// error carrying the reason.
    pub fn new<F>(config: PoolConfig, create: F) -> (r: Result<Self, WasmError>) where
        F: Fn() -> Result<T, String>,

        requires
            config.max_size > 0,
            call_requires(create, ()),
        ensures
            r matches Ok(pool) ==> ({
                &&& pool.config() == config
                &&& pool.idle().len() == (if config.max_size / 4 >= 1 {
                    config.max_size / 4
                } else {
                    1
                })
                &&& pool.live() == pool.idle().len()
                &&& forall|i: int|
                    0 <= i < pool.idle().len() ==> call_ensures(
                        create,
                        (),
                        Ok::<T, String>(#[trigger] pool.idle()[i]),
                    )
            }),
            r matches Err(e) ==> exists|reason: String|
                call_ensures(create, (), Err::<T, String>(reason)) && (e matches WasmError::ModuleLoad(
                    m,
                ) && m@ == "Failed to instantiate component: "@ + reason@),
    {
        let n = config.prewarm_count();
        assert(n <= config.max_size);
        let mut pool = WasmInstancePool::empty(config);
        let mut i: usize = 0;
        while i < n
            invariant
                n == (if config.max_size / 4 >= 1 {
                    config.max_size / 4
                } else {
                    1
                }),
                i <= n,
                0 < config.max_size,
                n <= config.max_size,
                call_requires(create, ()),
                pool.config() == config,
                pool.idle().len() == i,
                pool.live() == i,
                forall|j: int|
                    0 <= j < pool.idle().len() ==> call_ensures(
                        create,
                        (),
                        Ok::<T, String>(#[trigger] pool.idle()[j]),
                    ),
            decreases n - i,
        {
            match create() {
                Ok(instance) => {
                    let ghost before = pool.idle();
                    pool.add_created(instance);
                    assert(pool.idle()[i as int] == instance);
                    assert forall|j: int| 0 <= j < i implies pool.idle()[j] == before[j] by {}
                },
                Err(reason) => {
                    return Err(instantiation_error(reason.as_str()));
                },
            }
            i = i + 1;
        }
        Ok(pool)
    }

    /// Puts a newly created instance into the idle list.
    fn add_created(&mut self, instance: T)
        requires
            old(self).live() < old(self).config().max_size,
            old(self).live() == old(self).idle().len(),
        ensures
            final(self).config() == old(self).config(),
            final(self).idle() == old(self).idle().push(instance),
            final(self).live() == old(self).live() + 1,
    {
        let mut idle: Vec<T> = Vec::new();
        std::mem::swap(&mut idle, &mut self.idle);
        idle.push(instance);
        self.live = self.live + 1;
        self.idle = idle;
    }

    /// Checks out an instance: the oldest idle one; else, while fewer than the
    /// maximum size exist, a fresh one made by `create` (whose failure is a
    /// `ModuleLoad` error carrying the reason); else the pool is exhausted.
    pub fn checkout<F>(&mut self, create: F) -> (r: Result<T, WasmError>) where
        F: FnOnce() -> Result<T, String>,

        requires
            call_requires(create, ()),
        ensures
            final(self).config() == old(self).config(),
            final(self).live() <= final(self).config().max_size,
            old(self).idle().len() > 0 ==> r == Ok::<T, WasmError>(old(self).idle()[0])
                && final(self).idle() == old(self).idle().drop_first() && final(self).live()
                == old(self).live(),
            old(self).idle().len() == 0 && old(self).live() < old(self).config().max_size ==> (
            final(self).idle() == old(self).idle() && exists|out: Result<T, String>|
                call_ensures(create, (), out) && match out {
                    Ok(t) => r == Ok::<T, WasmError>(t) && final(self).live() == old(self).live()
                        + 1,
                    Err(reason) => final(self).live() == old(self).live() && (r matches Err(
                        WasmError::ModuleLoad(m),
                    ) && m@ == "Failed to instantiate component: "@ + reason@),
                }),
            old(self).idle().len() == 0 && old(self).live() == old(self).config().max_size ==> (
            final(self).idle() == old(self).idle() && final(self).live() == old(self).live() && (
            r matches Err(WasmError::ResourceLimit { resource }) && resource@ == "pool instances"@)),
    {
        proof {
            use_type_invariant(&*self);
        }
        if self.idle.len() > 0 {
            let mut idle: Vec<T> = Vec::new();
            std::mem::swap(&mut idle, &mut self.idle);
            let oldest = idle.remove(0);
            self.idle = idle;
            Ok(oldest)
        } else if self.live < self.config.max_size {
            match create() {
                Ok(instance) => {
                    self.live = self.live + 1;
                    Ok(instance)
                },
                Err(reason) => Err(instantiation_error(reason.as_str())),
            }
        } else {
            Err(pool_exhausted_error())
        }
    }

    /// Hands a checked-out instance back: it becomes the newest idle one.
    /// Since no more instances exist than the pool can hold, there is always
    /// room for it.
    pub fn check_in(&mut self, instance: T)
        requires
            old(self).idle().len() < old(self).live(),
        ensures
            final(self).config() == old(self).config(),
            final(self).idle() == old(self).idle().push(instance),
            final(self).live() == old(self).live(),
    {
        proof {
            use_type_invariant(&*self);
        }
        let mut idle: Vec<T> = Vec::new();
        std::mem::swap(&mut idle, &mut self.idle);
        idle.push(instance);
        self.idle = idle;
    }

    /// Number of idle instances.
    pub fn idle_count(&self) -> (r: usize)
        ensures
            r == self.idle().len(),
            r <= self.live(),
    {
        proof {
            use_type_invariant(&*self);
        }
        self.idle.len()
    }

    /// Number of instances that exist, idle or checked out; never more than
    /// the maximum size.
    pub fn live_count(&self) -> (r: usize)
        ensures
            r == self.live(),
            r <= self.config().max_size,
    {
        proof {
            use_type_invariant(&*self);
        }
        self.live
    }
}

} // verus!
