[package]
name = "kaspa-ng-core"
version = "0.1.0"
edition = "2021"
publish = false

[dependencies]
chrono = "=0.4.45"
rand = "=0.8.8"
tokio = { version = "=1.54.1", features = ["full"] }
tokio-postgres = "=0.7.18"
tokio-stream = "=0.1.19"
futures = "=0.3.34"
axum = "=0.7.9"
nix = { version = "=0.29.0", features = ["signal"] }
serde = { version = "=1.0.229", features = ["derive"] }
serde_json = "=1.0.154"
secp256k1 = { version = "=0.29.1", features = ["global-context", "rand-std"] }
kaspa-addresses = "=2.1.0"
kaspa-bip32 = "=2.1.0"
local-ip-address = "*"
