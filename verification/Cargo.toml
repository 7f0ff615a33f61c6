[package]
name = "aegis_gateway"
version = "0.3.0"
edition = "2021"
publish = false

[dependencies]
semver = "1"
ed25519-dalek = "2"
regex = "1"
uuid = { version = "1", features = ["v4"] }
metrics = "0.24"
metrics-exporter-prometheus = { version = "0.17", default-features = false }
hyper = { version = "1", features = ["client", "server", "http1", "http2"] }
hyper-util = { version = "0.1", features = ["client-legacy", "server-auto", "http1", "http2", "tokio", "service"] }
http-body-util = "0.1"
bytes = "1"
tokio = { version = "1", features = ["full"] }
tower = { version = "0.5", features = ["util"] }
tracing = "0.1"
tracing-subscriber = { version = "0.3", features = ["env-filter"] }
anyhow = "1"
notify = "*"
config = { version = "0.15", default-features = false, features = ["yaml"] }
serde = { version = "1", features = ["derive"] }
serde_json = "1"
thiserror = "2"
