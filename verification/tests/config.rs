use std::time::Duration;

use deadpool_redis_cluster::{
    BuildError, Config, ConfigError, ConnectionAddr, ConnectionInfo, CreatePoolError, PoolConfig,
    RedisConnectionInfo, Runtime,
};

fn node(host: &str, port: u16, password: Option<&str>) -> ConnectionInfo {
    ConnectionInfo {
        addr: ConnectionAddr::Tcp(host.to_string(), port),
        redis: RedisConnectionInfo {
            db: 0,
            username: None,
            password: password.map(|p| p.to_string()),
        },
    }
}

#[test]
fn default_config_has_one_local_connection() {
    let cfg = Config::default();
    assert!(cfg.urls.is_none());
    assert!(cfg.pool.is_none());
    let conns = cfg.connections.unwrap();
    assert_eq!(conns.len(), 1);
    match &conns[0].addr {
        ConnectionAddr::Tcp(host, port) => {
            assert_eq!(host, "127.0.0.1");
            assert_eq!(*port, 6379);
        }
        _ => panic!("expected a TCP address"),
    }
    assert_eq!(conns[0].redis.db, 0);
    assert!(conns[0].redis.username.is_none());
    assert!(conns[0].redis.password.is_none());
}

#[test]
fn default_config_builds() {
    let cfg = Config::default();
    assert!(cfg.builder().is_ok());
    let pool = cfg.create_pool(None).unwrap();
    assert!(pool.timeouts().wait.is_none());
    assert!(pool.runtime().is_none());
    assert!(pool.max_size() >= 4);
}

#[test]
fn from_urls_sets_only_urls() {
    let cfg = Config::from_urls(vec!["redis://127.0.0.1:7000".to_string()]);
    assert_eq!(cfg.urls, Some(vec!["redis://127.0.0.1:7000".to_string()]));
    assert!(cfg.connections.is_none());
    assert!(cfg.pool.is_none());
}

#[test]
fn from_urls_builds() {
    let cfg = Config::from_urls(vec![
        "redis://127.0.0.1:7000".to_string(),
        "redis://127.0.0.1:7001".to_string(),
    ]);
    assert!(cfg.builder().is_ok());
}

#[test]
fn unparsable_url_is_a_redis_error() {
    let cfg = Config::from_urls(vec![
        "redis://127.0.0.1:7000".to_string(),
        "not a url".to_string(),
    ]);
    assert!(matches!(cfg.builder(), Err(ConfigError::Redis(_))));
}

#[test]
fn url_of_other_scheme_is_a_redis_error() {
    let cfg = Config::from_urls(vec!["http://127.0.0.1:7000".to_string()]);
    assert!(matches!(cfg.builder(), Err(ConfigError::Redis(_))));
}

#[test]
fn empty_url_list_is_a_redis_error() {
    let cfg = Config::from_urls(Vec::<String>::new());
    assert!(matches!(cfg.builder(), Err(ConfigError::Redis(_))));
}

#[test]
fn unix_url_is_refused_by_the_cluster_client() {
    let cfg = Config::from_urls(vec!["unix:///tmp/redis.sock".to_string()]);
    assert!(matches!(cfg.builder(), Err(ConfigError::Redis(_))));
}

#[test]
fn urls_with_different_passwords_are_refused() {
    let cfg = Config::from_urls(vec![
        "redis://:one@127.0.0.1:7000".to_string(),
        "redis://:two@127.0.0.1:7001".to_string(),
    ]);
    assert!(matches!(cfg.builder(), Err(ConfigError::Redis(_))));
    let same = Config::from_urls(vec![
        "redis://:one@127.0.0.1:7000".to_string(),
        "redis://:one@127.0.0.1:7001".to_string(),
    ]);
    assert!(same.builder().is_ok());
}

#[test]
fn urls_and_connections_conflict() {
    let cfg = Config {
        urls: Some(vec!["redis://127.0.0.1:7000".to_string()]),
        connections: Some(vec![ConnectionInfo::default()]),
        pool: None,
    };
    assert!(matches!(cfg.builder(), Err(ConfigError::UrlAndConnectionSpecified)));
    assert!(matches!(
        cfg.create_pool(Some(Runtime::Tokio1)),
        Err(CreatePoolError::Config(ConfigError::UrlAndConnectionSpecified))
    ));
}

#[test]
fn neither_urls_nor_connections_uses_local_node() {
    let cfg = Config { urls: None, connections: None, pool: None };
    assert!(cfg.builder().is_ok());
}

#[test]
fn connections_build() {
    let cfg = Config {
        urls: None,
        connections: Some(vec![node("10.0.0.1", 7000, None), node("10.0.0.2", 7001, None)]),
        pool: None,
    };
    assert!(cfg.builder().is_ok());
}

#[test]
fn no_connections_is_a_redis_error() {
    let cfg = Config { urls: None, connections: Some(Vec::new()), pool: None };
    assert!(matches!(cfg.builder(), Err(ConfigError::Redis(_))));
}

#[test]
fn unix_connection_is_refused() {
    let cfg = Config {
        urls: None,
        connections: Some(vec![ConnectionInfo {
            addr: ConnectionAddr::Unix("/tmp/redis.sock".into()),
            redis: RedisConnectionInfo::default(),
        }]),
        pool: None,
    };
    assert!(matches!(cfg.builder(), Err(ConfigError::Redis(_))));
}

#[test]
fn connections_with_different_passwords_are_refused() {
    let cfg = Config {
        urls: None,
        connections: Some(vec![node("10.0.0.1", 7000, Some("a")), node("10.0.0.2", 7000, Some("b"))]),
        pool: None,
    };
    assert!(matches!(cfg.builder(), Err(ConfigError::Redis(_))));
    // Only the first node's password binds the others.
    let first_free = Config {
        urls: None,
        connections: Some(vec![node("10.0.0.1", 7000, None), node("10.0.0.2", 7000, Some("b"))]),
        pool: None,
    };
    assert!(first_free.builder().is_ok());
}

#[test]
fn get_pool_config_returns_configured_pool() {
    let mut pool = PoolConfig::new(16);
    pool.timeouts.wait = Some(Duration::from_secs(2));
    let cfg = Config { urls: None, connections: None, pool: Some(pool) };
    let got = cfg.get_pool_config();
    assert_eq!(got.max_size, 16);
    assert_eq!(got.timeouts.wait, Some(Duration::from_secs(2)));
    assert_eq!(got.timeouts.create, None);
    assert_eq!(got.timeouts.recycle, None);
}

#[test]
fn get_pool_config_defaults() {
    let cfg = Config::default();
    let got = cfg.get_pool_config();
    assert!(got.max_size >= 4);
    assert_eq!(got.max_size % 4, 0);
    assert!(got.timeouts.wait.is_none());
    assert!(got.timeouts.create.is_none());
    assert!(got.timeouts.recycle.is_none());
}

#[test]
fn timeouts_need_a_runtime() {
    let mut pool = PoolConfig::new(8);
    pool.timeouts.create = Some(Duration::from_secs(1));
    let cfg = Config { urls: None, connections: None, pool: Some(pool) };
    assert!(matches!(
        cfg.create_pool(None),
        Err(CreatePoolError::Build(BuildError::NoRuntimeSpecified))
    ));
    let built = cfg.create_pool(Some(Runtime::AsyncStd1)).unwrap();
    assert_eq!(built.max_size(), 8);
    assert_eq!(built.timeouts().create, Some(Duration::from_secs(1)));
    assert_eq!(built.runtime(), Some(Runtime::AsyncStd1));
}

#[test]
fn create_pool_without_timeouts_needs_no_runtime() {
    let cfg = Config { urls: None, connections: None, pool: Some(PoolConfig::new(5)) };
    let built = cfg.create_pool(None).unwrap();
    assert_eq!(built.max_size(), 5);
    assert!(built.runtime().is_none());
}

#[test]
fn create_pool_reports_redis_errors_as_config_errors() {
    let cfg = Config::from_urls(vec!["bogus".to_string()]);
    assert!(matches!(
        cfg.create_pool(Some(Runtime::Tokio1)),
        Err(CreatePoolError::Config(ConfigError::Redis(_)))
    ));
}

#[test]
fn config_error_messages() {
    assert_eq!(
        ConfigError::UrlAndConnectionSpecified.to_string(),
        "url and connection must not be specified at the same time."
    );
    let cfg = Config::from_urls(vec!["bogus".to_string()]);
    match cfg.builder() {
        Err(e @ ConfigError::Redis(_)) => assert!(e.to_string().starts_with("Redis: ")),
        _ => panic!("expected a redis error"),
    }
}

#[test]
fn redis_error_converts_into_config_error() {
    let err = redis::RedisError::from((redis::ErrorKind::InvalidClientConfig, "bad"));
    assert!(matches!(ConfigError::from(err), ConfigError::Redis(_)));
}

#[test]
fn builder_uses_the_parsed_urls_as_nodes() {
    let cfg = Config::from_urls(vec![
        "redis://127.0.0.1:7001".to_string(),
        "redis://:pw@127.0.0.1:7000/2".to_string(),
    ]);
    let pool = cfg.create_pool(None).unwrap();
    let nodes = pool.manager().initial_nodes();
    assert_eq!(nodes.len(), 2);
    match &nodes[0].addr {
        ConnectionAddr::Tcp(host, port) => {
            assert_eq!(host, "127.0.0.1");
            assert_eq!(*port, 7001);
        }
        _ => panic!("expected a TCP address"),
    }
    match &nodes[1].addr {
        ConnectionAddr::Tcp(_, port) => assert_eq!(*port, 7000),
        _ => panic!("expected a TCP address"),
    }
    assert_eq!(nodes[1].redis.db, 2);
    assert_eq!(nodes[1].redis.password.as_deref(), Some("pw"));
}

#[test]
fn builder_uses_the_configured_connections_as_nodes() {
    let cfg = Config {
        urls: None,
        connections: Some(vec![node("10.0.0.1", 7000, None), node("10.0.0.2", 7001, None)]),
        pool: Some(PoolConfig::new(3)),
    };
    let pool = cfg.create_pool(None).unwrap();
    let nodes = pool.manager().initial_nodes();
    assert_eq!(nodes.len(), 2);
    match &nodes[1].addr {
        ConnectionAddr::Tcp(host, port) => {
            assert_eq!(host, "10.0.0.2");
            assert_eq!(*port, 7001);
        }
        _ => panic!("expected a TCP address"),
    }
}

#[test]
fn builder_without_nodes_uses_the_local_default_node() {
    let cfg = Config { urls: None, connections: None, pool: None };
    let pool = cfg.create_pool(None).unwrap();
    let nodes = pool.manager().initial_nodes();
    assert_eq!(nodes.len(), 1);
    match &nodes[0].addr {
        ConnectionAddr::Tcp(host, port) => {
            assert_eq!(host, "127.0.0.1");
            assert_eq!(*port, 6379);
        }
        _ => panic!("expected a TCP address"),
    }
    let default_pool = Config::default().create_pool(None).unwrap();
    assert_eq!(default_pool.manager().initial_nodes().len(), 1);
}

#[test]
fn pool_config_for_cores() {
    let c = PoolConfig::for_cores(3);
    assert_eq!(c.max_size, 12);
    assert!(c.timeouts.wait.is_none());
    assert_eq!(PoolConfig::for_cores(usize::MAX).max_size, usize::MAX);
}

#[test]
fn redis_error_message_carries_the_redis_text() {
    let err = redis::RedisError::from((redis::ErrorKind::InvalidClientConfig, "bad thing"));
    let text = err.to_string();
    assert_eq!(ConfigError::from(err).to_string(), format!("Redis: {}", text));
}

#[test]
fn config_clone_keeps_every_field() {
    let cfg = Config {
        urls: Some(vec!["redis://h:1".to_string()]),
        connections: None,
        pool: Some(PoolConfig::new(7)),
    };
    let copy = cfg.clone();
    assert_eq!(copy.urls, cfg.urls);
    assert!(copy.connections.is_none());
    assert_eq!(copy.pool.unwrap().max_size, 7);
}

#[test]
fn builder_reports_the_first_bad_url() {
    let cfg = Config::from_urls(vec![
        "redis://127.0.0.1:7000".to_string(),
        "redis://127.0.0.1:7001/abc".to_string(),
        "bogus".to_string(),
    ]);
    let expected = redis::IntoConnectionInfo::into_connection_info("redis://127.0.0.1:7001/abc").unwrap_err().to_string();
    match cfg.builder() {
        Err(e @ ConfigError::Redis(_)) => assert_eq!(e.to_string(), format!("Redis: {}", expected)),
        _ => panic!("expected a redis error"),
    }
}
