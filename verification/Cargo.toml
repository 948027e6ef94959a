[package]
name = "adaptive_rpc"
version = "0.1.0"
edition = "2021"
publish = false

[dependencies]
alloy = { version = "=1.8.3", default-features = false, features = ["std", "json-rpc", "transports"] }
alloy-chains = "=0.2.39"
once_cell = "1"
rand = "=0.8.8"
serde_json = { version = "=1.0.154", features = ["raw_value"] }
tokio = { version = "1", features = ["time"] }
tower = "=0.5.3"
tracing = "0.1"
