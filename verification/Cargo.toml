[package]
name = "durable_exec"
version = "0.1.0"
edition = "2021"
publish = false

[dependencies]
anyhow = "=1.0.104"
futures = "=0.3.34"
hyper = { version = "=1.12.0", features = ["server", "http1"] }
hyper-util = { version = "=0.1.21", features = ["tokio", "server-graceful"] }
log = "=0.4.34"
rand = "=0.10.3"
restate-sdk = "=0.12.1"
serde = { version = "=1.0.229", features = ["derive"] }
serde_json = "=1.0.154"
shuttle-runtime = "=0.57.0"
tokio = { version = "=1.54.1", features = ["macros", "rt-multi-thread", "time", "net", "signal"] }
tracing = "=0.1.44"
tracing-subscriber = "=0.3.23"
uuid = { version = "=1.29.0", features = ["v4"] }
