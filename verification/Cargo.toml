[package]
name = "validator_duty"
version = "0.1.0"
edition = "2021"
publish = false

[dependencies]
anyhow = "*"
tokio = { version = "*", features = ["macros", "rt-multi-thread", "time"] }
reqwest = { version = "*", default-features = false, features = ["json"] }
serde = { version = "*", features = ["derive"] }
serde_json = "*"
tracing = "*"
alloy-primitives = { version = "*", default-features = false }
tree_hash = "*"
tree_hash_derive = "*"
