//! Pool settings, and the builder that checks them before a pool is made.
use std::time::Duration;
use vstd::prelude::*;

use crate::manager::Manager;
use crate::redis_bridge::physical_cpu_count;

verus! {

/// The async runtime that drives the pool's timeouts.
#[derive(Clone, Copy, Debug, PartialEq, Eq)]
pub enum Runtime {
    /// The `tokio` runtime, version 1.
    Tokio1,
    /// The `async-std` runtime, version 1.
    AsyncStd1,
}

/// How long the pool waits for each step; `None` waits without end.
#[derive(Clone, Copy, Debug)]
pub struct Timeouts {
    /// Waiting for an object to become available.
    pub wait: Option<Duration>,
    /// Creating a new object.
    pub create: Option<Duration>,
    /// Recycling an object.
    pub recycle: Option<Duration>,
}

impl Timeouts {
    /// Some timeout is set.
    pub open spec fn any_set(self) -> bool {
        self.wait is Some || self.create is Some || self.recycle is Some
    }

    /// No timeout is set.
    pub fn new() -> (t: Timeouts)
        ensures
            t.wait is None && t.create is None && t.recycle is None,
    {
        Timeouts { wait: None, create: None, recycle: None }
    }

    /// Whether some timeout is set.
    pub fn is_any_set(&self) -> (b: bool)
        ensures
            b == self.any_set(),
    {
        self.wait.is_some() || self.create.is_some() || self.recycle.is_some()
    }
}

impl Default for Timeouts {
    fn default() -> (t: Timeouts)
        ensures
            t.wait is None && t.create is None && t.recycle is None,
    {
        Timeouts::new()
    }
}

/// Settings of a pool.
#[derive(Clone, Copy, Debug)]
pub struct PoolConfig {
    /// The largest number of objects the pool holds.
    pub max_size: usize,
    /// Timeouts of the pool.
    pub timeouts: Timeouts,
}

impl PoolConfig {
    /// What `PoolConfig::default` gives on some machine: no timeouts and four
    /// objects for each physical core (at least one core), capped at
    /// `usize::MAX`.
    pub open spec fn is_default(self) -> bool {
        &&& self.timeouts.wait is None
        &&& self.timeouts.create is None
        &&& self.timeouts.recycle is None
        &&& exists|cores: int| #![trigger Self::size_for_cores(cores)]
            cores >= 1 && self.max_size == Self::size_for_cores(cores)
    }

    /// Four objects for each core, capped at `usize::MAX`.
    pub open spec fn size_for_cores(cores: int) -> int {
        if 4 * cores <= usize::MAX {
            4 * cores
        } else {
            usize::MAX as int
        }
    }

    /// A pool of at most `max_size` objects, without timeouts.
    pub fn new(max_size: usize) -> (c: PoolConfig)
        ensures
            c.max_size == max_size,
            c.timeouts.wait is None && c.timeouts.create is None && c.timeouts.recycle is None,
    {
        PoolConfig { max_size, timeouts: Timeouts::new() }
    }
}

impl PoolConfig {
    /// Four objects for each of `cores` cores (capped at `usize::MAX`),
    /// without timeouts.
    pub fn for_cores(cores: usize) -> (c: PoolConfig)
        ensures
            c.max_size == Self::size_for_cores(cores as int),
            c.timeouts.wait is None && c.timeouts.create is None && c.timeouts.recycle is None,
    {
        let max_size = match cores.checked_mul(4) {
            Some(n) => n,
            None => usize::MAX,
        };
        PoolConfig::new(max_size)
    }
}

/// `cores` is a count of physical cores that this machine reports
/// (`physical_cpu_count` may give it).
pub closed spec fn reported_cores(cores: usize) -> bool {
    call_ensures(physical_cpu_count, (), cores)
}

/// A core count that the machine reports is at least 1.
pub proof fn lemma_reported_cores_positive(cores: usize)
    requires
        reported_cores(cores),
    ensures
        cores >= 1,
{
}

/// `c` is pool settings that `PoolConfig::default` may give on this machine.
pub open spec fn default_outcome(c: PoolConfig) -> bool {
    call_ensures(<PoolConfig as Default>::default, (), c)
}

impl Default for PoolConfig {
    /// Four objects for each physical core of this machine, without timeouts.
    fn default() -> (c: PoolConfig)
        ensures
            c.is_default(),
            exists|cores: usize|
                reported_cores(cores) && c.max_size == Self::size_for_cores(cores as int),
    {
        let cores = physical_cpu_count();
        PoolConfig::for_cores(cores)
    }
}

/// Why a pool could not be built.
#[derive(Debug, PartialEq, Eq)]
pub enum BuildError {
    /// A timeout is set but no runtime was given to enforce it.
    NoRuntimeSpecified,
}

/// Collects what a pool needs, and checks it in `build`.
pub struct PoolBuilder {
    manager: Manager,
    config: PoolConfig,
    runtime: Option<Runtime>,
}

impl PoolBuilder {
    /// The settings the pool will be built with.
    pub closed spec fn pool_config(&self) -> PoolConfig {
        self.config
    }

    /// The runtime the pool will be built with.
    pub closed spec fn pool_runtime(&self) -> Option<Runtime> {
        self.runtime
    }

    /// The manager the pool will be built with.
    pub closed spec fn pool_manager(&self) -> Manager {
        self.manager
    }

    /// Sets the pool settings.
    pub fn config(self, value: PoolConfig) -> (b: PoolBuilder)
        ensures
            b.pool_config() == value,
            b.pool_runtime() == self.pool_runtime(),
            b.pool_manager() == self.pool_manager(),
    {
        PoolBuilder { config: value, ..self }
    }

    /// Sets the runtime.
    pub fn runtime(self, value: Runtime) -> (b: PoolBuilder)
        ensures
            b.pool_config() == self.pool_config(),
            b.pool_runtime() == Some(value),
            b.pool_manager() == self.pool_manager(),
    {
        PoolBuilder { runtime: Some(value), ..self }
    }

    /// Builds the pool. A timeout needs a runtime to enforce it: where one is
    /// set and no runtime is, the build fails.
    pub fn build(self) -> (r: Result<Pool, BuildError>)
        ensures
            r is Err <==> self.pool_config().timeouts.any_set() && self.pool_runtime() is None,
            r matches Err(e) ==> e == BuildError::NoRuntimeSpecified,
            r matches Ok(p) ==> p.pool_config() == self.pool_config() && p.pool_runtime()
                == self.pool_runtime() && p.pool_manager() == self.pool_manager(),
    {
        if self.config.timeouts.is_any_set() && self.runtime.is_none() {
            return Err(BuildError::NoRuntimeSpecified);
        }
        Ok(Pool { manager: self.manager, config: self.config, runtime: self.runtime })
    }
}

/// A pool of connections to a Redis cluster, as built: its manager, its
/// settings and its runtime.
pub struct Pool {
    manager: Manager,
    config: PoolConfig,
    runtime: Option<Runtime>,
}

impl Pool {
    /// The settings the pool was built with.
    pub closed spec fn pool_config(&self) -> PoolConfig {
        self.config
    }

    /// The runtime the pool was built with.
    pub closed spec fn pool_runtime(&self) -> Option<Runtime> {
        self.runtime
    }

    /// The manager the pool was built with.
    pub closed spec fn pool_manager(&self) -> Manager {
        self.manager
    }

    /// A builder for a pool of `manager`'s connections, with the default
    /// settings and no runtime.
    pub fn builder(manager: Manager) -> (b: PoolBuilder)
        ensures
            b.pool_config().is_default(),
            b.pool_runtime() is None,
            b.pool_manager() == manager,
    {
        PoolBuilder { manager, config: PoolConfig::default(), runtime: None }
    }

    /// The manager that creates the pool's connections.
    pub fn manager(&self) -> (m: &Manager)
        ensures
            *m == self.pool_manager(),
    {
        &self.manager
    }

    /// The largest number of connections the pool holds.
    pub fn max_size(&self) -> (n: usize)
        ensures
            n == self.pool_config().max_size,
    {
        self.config.max_size
    }

    /// The timeouts of the pool.
    pub fn timeouts(&self) -> (t: Timeouts)
        ensures
            t == self.pool_config().timeouts,
    {
        self.config.timeouts
    }

    /// The runtime of the pool.
    pub fn runtime(&self) -> (rt: Option<Runtime>)
        ensures
            rt == self.pool_runtime(),
    {
        self.runtime
    }
}

} // verus!
