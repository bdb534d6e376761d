[package]
name = "cryptoheir"
version = "0.1.0"
edition = "2021"
publish = false

[dependencies]
alloy = { version = "=2.5.0", default-features = false, features = ["std", "consensus", "eips", "network", "signers", "signer-local", "providers", "provider-http", "reqwest", "rpc-types"] }
alloy-signer-local = "=2.5.0"
chrono = { version = "=0.4.45", default-features = false, features = ["std", "now"] }
dotenvy = "=0.15.7"
eyre = "=0.6.14"
hex = "=0.4.3"
serde = { version = "=1.0.229", features = ["derive"] }
serde_json = "=1.0.154"
tokio = { version = "=1.54.1", features = ["rt-multi-thread", "macros", "time"] }
tracing = "=0.1.44"
