//! Configuration of a pool of connections to a Redis cluster.
pub mod config;
pub mod connection;
pub mod manager;
pub mod pool;
pub mod redis_bridge;

pub use connection::{ConnectionAddr, ConnectionInfo, RedisConnectionInfo};
pub use manager::Manager;
pub use pool::{BuildError, Pool, PoolBuilder, PoolConfig, Runtime, Timeouts};
pub use config::{Config, ConfigError, CreatePoolError};
