# deadpool_redis_cluster

Configuration of a pool of connections to a Redis cluster, verified with Verus.

- `src/config.rs`: `Config`, and how it becomes a pool builder and a pool.
- `src/connection.rs`: the connection parameters of a node, and their
  conversions to and from the `redis` crate's types.
- `src/pool.rs`: pool settings, the pool builder and its checks.
- `src/manager.rs`: the manager that holds the `redis` cluster client.
- `src/redis_bridge.rs`: the declarations and trusted wrappers through which
  the library calls `redis`, `num_cpus` and std.
- `app/`: serde forms of the configuration types, `Display` for errors, and
  `redis::IntoConnectionInfo` for connection parameters.
