[package]
name = "hypercopy"
version = "0.1.0"
edition = "2021"
publish = false

[dependencies]
alloy-primitives = "*"
alloy-signer = "*"
alloy-signer-local = "*"
anyhow = "*"
dotenvy = "*"
futures-util = "*"
reqwest = { version = "*", default-features = false, features = ["json"] }
rmp-serde = "*"
serde = { version = "*", features = ["derive"] }
serde_json = "*"
tokio = { version = "*", features = ["full"] }
tokio-tungstenite = "*"
toml = "*"
tracing = "*"
tracing-subscriber = { version = "*", features = ["env-filter", "fmt"] }
