[package]
name = "kite_mesh"
version = "0.1.0"
edition = "2021"
publish = false

[dependencies]
anyhow = "1"
async-trait = "*"
blake3 = "1"
clap = { version = "4", default-features = false, features = ["std", "derive", "help", "usage"] }
futures = "0.3"
libp2p = { version = "0.56", features = ["ed25519", "tokio", "tcp", "noise", "yamux", "kad", "mdns", "identify", "request-response", "macros"] }
metrics = "0.24"
metrics-exporter-prometheus = { version = "0.16", default-features = false }
prost = "0.13"
serde = { version = "1", features = ["derive"] }
serde_json = "1"
sqlx = { version = "0.8", default-features = false, features = ["sqlite", "runtime-tokio"] }
thiserror = "*"
tokio = { version = "1", features = ["rt-multi-thread", "macros", "sync", "fs", "signal", "time"] }
toml = "*"
tracing = "0.1"
tracing-subscriber = { version = "0.3", default-features = false, features = ["std", "fmt", "env-filter"] }
uuid = { version = "1", features = ["v4"] }
