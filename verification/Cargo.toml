[package]
name = "namespace_watchdog"
version = "0.1.0"
edition = "2021"
publish = false

[dependencies]
k8s-openapi = { version = "*", features = ["latest"] }
kube = { version = "*", features = ["runtime", "ws"] }
humantime = "2"
humantime-serde = "1"
anyhow = "1"
clap = { version = "4", features = ["derive"] }
tokio = { version = "1", features = ["full"] }
tokio-stream = { version = "0.1", features = ["signal"] }
hyper = { version = "1", features = ["client", "http1"] }
futures = "0.3"
serde = { version = "1", features = ["derive"] }
serde_with = "3"
warp = "0.3"
chrono = "0.4"
