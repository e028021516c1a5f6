[package]
name = "shard_affinity"
version = "0.1.0"
edition = "2021"
publish = false

[dependencies]
rand = "*"
tokio = { version = "*", default-features = false, features = ["rt", "sync"] }
futures = "*"
core_affinity = "*"
