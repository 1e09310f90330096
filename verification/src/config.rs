//! The configuration object, and how it turns into a pool.
use vstd::prelude::*;

use crate::connection::ConnectionInfo;
use crate::manager::Manager;
use crate::pool::{
    default_outcome, lemma_reported_cores_positive, reported_cores, BuildError, Pool, PoolBuilder,
    PoolConfig, Runtime,
};
use crate::redis_bridge::{
    cluster_accepts, cluster_client_for, parse_redis_url, redis_url_connection_info,
};

verus! {

/// Every URL parses.
pub open spec fn urls_parse(urls: Seq<String>) -> bool {
    forall|i: int| 0 <= i < urls.len() ==> (#[trigger] redis_url_connection_info(urls[i]@)) is Ok
}

/// The nodes that the URLs name, in order.
pub open spec fn parsed_urls(urls: Seq<String>) -> Seq<ConnectionInfo> {
    urls.map_values(|u: String| redis_url_connection_info(u@)->Ok_0)
}

/// The position of the first URL that does not parse (meaningful where some
/// URL does not parse).
pub open spec fn first_bad_url(urls: Seq<String>) -> int {
    choose|i: int|
        0 <= i < urls.len() && urls_parse(urls.take(i)) && (#[trigger] redis_url_connection_info(
            urls[i]@,
        )) is Err
}

/// A cluster client can be made from these URLs: each parses, and the nodes
/// they name pass the cluster client's checks.
pub open spec fn urls_build(urls: Seq<String>) -> bool {
    urls_parse(urls) && cluster_accepts(parsed_urls(urls))
}

/// Configuration of a pool of connections to a Redis cluster.
///
/// The cluster is reached through `urls` or through `connections`, not both;
/// where neither is given, through `127.0.0.1:6379`.
#[derive(Debug)]
pub struct Config {
    /// Redis URLs.
    pub urls: Option<Vec<String>>,
    /// Connection parameters of the initial nodes.
    pub connections: Option<Vec<ConnectionInfo>>,
    /// Pool configuration.
    pub pool: Option<PoolConfig>,
}

impl Clone for Config {
    fn clone(&self) -> (r: Self)
        ensures
            r.urls is Some == self.urls is Some,
            r.urls matches Some(u) ==> u@ == self.urls->0@,
            r.connections is Some == self.connections is Some,
            r.connections matches Some(c) ==> c@ == self.connections->0@,
            r.pool == self.pool,
    {
        let urls = match &self.urls {
            Some(v) => {
                let c = v.clone();
                assert(c@ =~= v@);
                Some(c)
            },
            None => None,
        };
        let connections = match &self.connections {
            Some(v) => {
                let c = v.clone();
                assert(c@ =~= v@);
                Some(c)
            },
            None => None,
        };
        Config { urls, connections, pool: self.pool }
    }
}

/// This error is returned if the configuration contains an error.
#[derive(Debug)]
pub enum ConfigError {
    /// Both url and connection were specified in the config.
    UrlAndConnectionSpecified,
    /// The `redis` crate returned an error when parsing the config.
    Redis(redis::RedisError),
}

/// Why `Config::create_pool` failed.
#[derive(Debug)]
pub enum CreatePoolError {
    /// The configuration could not be turned into a pool builder.
    Config(ConfigError),
    /// The pool builder refused its settings.
    Build(BuildError),
}

impl Config {
    /// `builder` succeeds on this configuration.
    pub open spec fn builds(self) -> bool {
        match (self.urls, self.connections) {
            (Some(_), Some(_)) => false,
            (Some(urls), None) => urls_build(urls@),
            (None, Some(connections)) => cluster_accepts(connections@),
            (None, None) => true,
        }
    }

    /// `c` is the pool configuration that this configuration asks for: the
    /// one it holds, or else the default one.
    pub open spec fn gives_pool_config(self, c: PoolConfig) -> bool {
        match self.pool {
            Some(p) => c == p,
            None => c.is_default() && default_outcome(c),
        }
    }

    /// `m` is the manager that this configuration asks for: its nodes are the
    /// ones the URLs parse into, or the configured connections, or else the
    /// one local default node; its cluster client is the one made from them.
    pub open spec fn gives_manager(self, m: Manager) -> bool {
        &&& match (self.urls, self.connections) {
            (Some(urls), None) => m.nodes() == parsed_urls(urls@),
            (None, Some(connections)) => m.nodes() == connections@,
            (None, None) => m.nodes().len() == 1 && m.nodes()[0].is_default(),
            (Some(_), Some(_)) => false,
        }
        &&& cluster_client_for(m.nodes()) == Ok::<redis::cluster::ClusterClient, redis::RedisError>(
            m.cluster_client(),
        )
    }

    /// The error `builder` gives where this configuration does not build:
    /// `UrlAndConnectionSpecified` where both URLs and connections are given;
    /// else the error of the first URL that does not parse; else the error
    /// with which the cluster client refuses the nodes. (A configuration with
    /// neither URLs nor connections always builds.)
    pub open spec fn failure(self) -> ConfigError {
        match (self.urls, self.connections) {
            (Some(_), Some(_)) => ConfigError::UrlAndConnectionSpecified,
            (Some(urls), None) => if urls_parse(urls@) {
                ConfigError::Redis(cluster_client_for(parsed_urls(urls@))->Err_0)
            } else {
                ConfigError::Redis(
                    redis_url_connection_info(urls@[first_bad_url(urls@)]@)->Err_0,
                )
            },
            (None, Some(connections)) => ConfigError::Redis(
                cluster_client_for(connections@)->Err_0,
            ),
            (None, None) => vstd::pervasive::arbitrary(),
        }
    }

    /// The configuration holds pool settings with a timeout.
    pub open spec fn has_timeouts(self) -> bool {
        self.pool matches Some(p) && p.timeouts.any_set()
    }

    /// What `Config::default` gives: the local default node as the only
    /// connection, no URLs, no pool settings.
    pub open spec fn is_default(self) -> bool {
        &&& self.urls is None
        &&& self.connections matches Some(c) && c@.len() == 1 && c@[0].is_default()
        &&& self.pool is None
    }

    /// Creates a new pool using this configuration, driven by `runtime`.
    ///
    /// # Errors
    ///
    /// `CreatePoolError::Config` where `builder` fails, and
    /// `CreatePoolError::Build` where a timeout is configured but no runtime
    /// is given.
    pub fn create_pool(&self, runtime: Option<Runtime>) -> (r: Result<Pool, CreatePoolError>)
        ensures
            !self.builds() ==> (r matches Err(CreatePoolError::Config(e)) && e == self.failure()),
            self.urls is Some && self.connections is Some ==> r matches Err(
                CreatePoolError::Config(ConfigError::UrlAndConnectionSpecified),
            ),
            !self.builds() && !(self.urls is Some && self.connections is Some) ==> r matches Err(
                CreatePoolError::Config(ConfigError::Redis(_)),
            ),
            self.builds() ==> (r is Err <==> runtime is None && self.has_timeouts()),
            self.builds() && r is Err ==> r matches Err(
                CreatePoolError::Build(BuildError::NoRuntimeSpecified),
            ),
            r matches Ok(p) ==> self.gives_pool_config(p.pool_config()) && p.pool_runtime()
                == runtime && self.gives_manager(p.pool_manager()),
    {
        let mut builder = match self.builder() {
            Ok(b) => b,
            Err(e) => return Err(CreatePoolError::Config(e)),
        };
        if let Some(runtime) = runtime {
            builder = builder.runtime(runtime);
        }
        match builder.build() {
            Ok(pool) => Ok(pool),
            Err(e) => Err(CreatePoolError::Build(e)),
        }
    }

    /// Creates a new pool builder using this configuration.
    ///
    /// # Errors
    ///
    /// `ConfigError::UrlAndConnectionSpecified` where both `urls` and
    /// `connections` are given; `ConfigError::Redis` where a URL does not
    /// parse or the cluster client refuses the nodes.
    pub fn builder(&self) -> (r: Result<PoolBuilder, ConfigError>)
        ensures
            r is Ok <==> self.builds(),
            self.urls is Some && self.connections is Some ==> r matches Err(
                ConfigError::UrlAndConnectionSpecified,
            ),
            !(self.urls is Some && self.connections is Some) && r is Err ==> r matches Err(
                ConfigError::Redis(_),
            ),
            r matches Err(e) ==> e == self.failure(),
            r matches Ok(b) ==> self.gives_pool_config(b.pool_config()) && b.pool_runtime() is None
                && self.gives_manager(b.pool_manager()),
    {
        let manager = match (&self.urls, &self.connections) {
            (Some(urls), None) => {
                let mut nodes: Vec<ConnectionInfo> = Vec::new();
                let n = urls.len();
                for i in 0..n
                    invariant
                        n == urls@.len(),
                        self.urls == Some(*urls),
                        self.connections is None,
                        nodes@ == parsed_urls(urls@.take(i as int)),
                        urls_parse(urls@.take(i as int)),
                {
                    match parse_redis_url(urls[i].as_str()) {
                        Ok(node) => {
                            nodes.push(node);
                        },
                        Err(e) => {
                            proof {
                                let us = urls@;
                                let bad = redis_url_connection_info(us[i as int]@);
                                assert(!(bad is Ok));
                                assert(us.take(i as int + 1)[i as int] == us[i as int]);
                                assert(!urls_parse(us));
                                let k = first_bad_url(us);
                                assert(0 <= k < us.len() && urls_parse(us.take(k))
                                    && redis_url_connection_info(us[k]@) is Err);
                                if k < i {
                                    assert(us.take(i as int)[k] == us[k]);
                                } else if k > i {
                                    assert(us.take(k)[i as int] == us[i as int]);
                                }
                                assert(k == i);
                            }
                            return Err(ConfigError::from(e));
                        },
                    }
                    proof {
                        assert(urls@.take(i as int + 1) =~= urls@.take(i as int).push(urls@[i as int]));
                        assert(parsed_urls(urls@.take(i as int + 1)) =~= parsed_urls(urls@.take(i as int)).push(redis_url_connection_info(urls@[i as int]@)->Ok_0));
                    }
                }
                proof {
                    assert(urls@.take(n as int) =~= urls@);
                }
                Manager::new(nodes)
            },
            (None, Some(connections)) => {
                let nodes = connections.clone();
                assert(nodes@ =~= connections@);
                Manager::new(nodes)
            },
            (None, None) => {
                let mut nodes: Vec<ConnectionInfo> = Vec::new();
                nodes.push(ConnectionInfo::default());
                Manager::new(nodes)
            },
            (Some(_), Some(_)) => return Err(ConfigError::UrlAndConnectionSpecified),
        };
        let manager = match manager {
            Ok(m) => m,
            Err(e) => return Err(ConfigError::from(e)),
        };
        let pool_config = self.get_pool_config();
        Ok(Pool::builder(manager).config(pool_config))
    }

    /// The pool settings: the configured ones, or else the default ones.
    pub fn get_pool_config(&self) -> (c: PoolConfig)
        ensures
            self.gives_pool_config(c),
    {
        match self.pool {
            Some(p) => p,
            None => PoolConfig::default(),
        }
    }

    /// Creates a new configuration from the given Redis URLs (like
    /// `redis://127.0.0.1`).
    pub fn from_urls<T: Into<Vec<String>>>(urls: T) -> (c: Config)
        ensures
            c.urls matches Some(u) && call_ensures(T::into, (urls,), u),
            c.connections is None,
            c.pool is None,
    {
        Config { urls: Some(urls.into()), connections: None, pool: None }
    }
}

/// The default configuration always makes a pool builder: its one node,
/// `127.0.0.1:6379` without password or username, passes the cluster
/// client's checks.
pub proof fn lemma_default_config_builds(c: Config)
    requires
        c.is_default(),
    ensures
        c.builds(),
{
    let nodes = c.connections->0@;
    assert(!(nodes[0].addr is Unix));
}

/// A configuration that gives both URLs and connections never makes a pool
/// builder, whatever they hold.
pub proof fn lemma_urls_and_connections_conflict(c: Config)
    requires
        c.urls is Some,
        c.connections is Some,
    ensures
        !c.builds(),
{
}

/// Giving neither URLs nor connections asks for the same as the default
/// configuration: both make a pool builder, with a single local default node
/// and the same pool settings.
pub proof fn lemma_no_nodes_means_default_node(bare: Config, default: Config, m: Manager, c: PoolConfig)
    requires
        bare.urls is None,
        bare.connections is None,
        default.is_default(),
        bare.pool == default.pool,
    ensures
        bare.builds() && default.builds(),
        default.gives_manager(m) ==> bare.gives_manager(m),
        bare.gives_pool_config(c) == default.gives_pool_config(c),
{
    lemma_default_config_builds(default);
}

/// Giving the URLs, or giving the connections that they parse into, makes
/// a pool builder in the same cases.
pub proof fn lemma_urls_agree_with_their_connections(by_urls: Config, by_connections: Config)
    requires
        by_urls.urls is Some,
        by_urls.connections is None,
        by_connections.urls is None,
        by_connections.connections matches Some(c) && c@ == parsed_urls(by_urls.urls->0@),
        urls_parse(by_urls.urls->0@),
    ensures
        by_urls.builds() == by_connections.builds(),
{
}

/// Without pool settings in the configuration, the settings that
/// `get_pool_config` gives are the machine's default: no timeouts, and four
/// objects for each physical core the machine reports (at least one core),
/// capped at `usize::MAX`.
pub proof fn lemma_get_pool_config_follows_the_cores(cfg: Config, c: PoolConfig)
    requires
        cfg.pool is None,
        call_ensures(Config::get_pool_config, (&cfg,), c),
    ensures
        c.timeouts.wait is None && c.timeouts.create is None && c.timeouts.recycle is None,
        exists|cores: usize|
            reported_cores(cores) && cores >= 1 && c.max_size == PoolConfig::size_for_cores(
                cores as int,
            ),
{
    let cores = choose|cores: usize|
        reported_cores(cores) && c.max_size == PoolConfig::size_for_cores(cores as int);
    lemma_reported_cores_positive(cores);
}

/// With pool settings in the configuration, `get_pool_config` gives exactly
/// them.
pub proof fn lemma_get_pool_config_keeps_the_settings(cfg: Config, c: PoolConfig)
    requires
        call_ensures(Config::get_pool_config, (&cfg,), c),
        cfg.pool is Some,
    ensures
        c == cfg.pool->0,
{
}

/// A pool builder made from a configuration without pool settings carries
/// the machine's default settings: no timeouts, and four objects for each
/// physical core the machine reports, capped at `usize::MAX`; with pool
/// settings, exactly those.
pub proof fn lemma_builder_pool_settings(cfg: Config, r: Result<PoolBuilder, ConfigError>)
    requires
        call_ensures(Config::builder, (&cfg,), r),
        r is Ok,
    ensures
        cfg.pool matches Some(p) ==> r->Ok_0.pool_config() == p,
        cfg.pool is None ==> {
            let c = r->Ok_0.pool_config();
            &&& c.timeouts.wait is None && c.timeouts.create is None && c.timeouts.recycle is None
            &&& exists|cores: usize|
                reported_cores(cores) && cores >= 1 && c.max_size == PoolConfig::size_for_cores(
                    cores as int,
                )
        },
{
    if cfg.pool is None {
        let c = r->Ok_0.pool_config();
        let cores = choose|cores: usize|
            reported_cores(cores) && c.max_size == PoolConfig::size_for_cores(cores as int);
        lemma_reported_cores_positive(cores);
    }
}

/// A pool created from a configuration without pool settings holds at most
/// four connections for each physical core the machine reports (capped at
/// `usize::MAX`) and has no timeouts; with pool settings, it has exactly
/// those.
pub proof fn lemma_create_pool_settings(
    cfg: Config,
    runtime: Option<Runtime>,
    r: Result<Pool, CreatePoolError>,
)
    requires
        call_ensures(Config::create_pool, (&cfg, runtime), r),
        r is Ok,
    ensures
        cfg.pool matches Some(p) ==> r->Ok_0.pool_config() == p,
        cfg.pool is None ==> {
            let c = r->Ok_0.pool_config();
            &&& c.timeouts.wait is None && c.timeouts.create is None && c.timeouts.recycle is None
            &&& exists|cores: usize|
                reported_cores(cores) && cores >= 1 && c.max_size == PoolConfig::size_for_cores(
                    cores as int,
                )
        },
{
    if cfg.pool is None {
        let c = r->Ok_0.pool_config();
        let cores = choose|cores: usize|
            reported_cores(cores) && c.max_size == PoolConfig::size_for_cores(cores as int);
        lemma_reported_cores_positive(cores);
    }
}

impl Default for Config {
    fn default() -> (c: Config)
        ensures
            c.is_default(),
    {
        let mut connections: Vec<ConnectionInfo> = Vec::new();
        connections.push(ConnectionInfo::default());
        Config { urls: None, connections: Some(connections), pool: None }
    }
}

impl From<redis::RedisError> for ConfigError {
    fn from(e: redis::RedisError) -> (r: ConfigError)
        ensures
            r == ConfigError::Redis(e),
    {
        ConfigError::Redis(e)
    }
}

impl vstd::std_specs::convert::FromSpecImpl<redis::RedisError> for ConfigError {
    open spec fn obeys_from_spec() -> bool {
        true
    }

    open spec fn from_spec(e: redis::RedisError) -> ConfigError {
        ConfigError::Redis(e)
    }
}

impl ConfigError {
    /// The message that describes the error.
    pub fn to_string(&self) -> (s: String)
        ensures
            self is UrlAndConnectionSpecified ==> s@
                == "url and connection must not be specified at the same time."@,
            self matches ConfigError::Redis(e) ==> exists|d: String|
                vstd::string::to_string_from_display_ensures::<redis::RedisError>(&e, d) && s@
                    == "Redis: "@ + d@,
    {
        match self {
            ConfigError::UrlAndConnectionSpecified => {
                let s = "url and connection must not be specified at the same time.".to_owned();
                proof {
                    reveal_strlit("url and connection must not be specified at the same time.");
                }
                s
            },
            ConfigError::Redis(e) => {
                let detail = e.to_string();
                let s = "Redis: ".to_owned().concat(detail.as_str());
                s
            },
        }
    }
}

} // verus!
