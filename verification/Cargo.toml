[package]
name = "deadpool_redis_cluster"
version = "0.1.0"
edition = "2021"
publish = false

[dependencies]
redis = { version = "0.23", default-features = false, features = ["cluster"] }
num_cpus = "1"
serde = { version = "1", features = ["derive"] }
