[package]
name = "registry_indexer"
version = "0.1.0"
edition = "2021"
publish = false

[dependencies]
gitpatch = "*"
serde_json = "1"
tokio = { version = "1", features = ["full"] }
ractor = { version = "*", features = ["async-trait"] }
async-trait = "0.1"
tracing = { version = "0.1", features = ["log"] }
tracing-subscriber = { version = "0.3", features = ["env-filter"] }
