[package]
name = "network_metrics"
version = "0.1.0"
edition = "2021"
publish = false

[dependencies]
metrics = "=0.24.6"
libp2p = { version = "=0.57.0", default-features = false, features = ["gossipsub"] }

[dev-dependencies]
metrics-exporter-prometheus = { version = "=0.18.3", default-features = false }
