[package]
name = "chain"
version = "0.1.0"
edition = "2021"
publish = false

[dependencies]
blake3 = { version = "=1.8.7", features = ["pure"] }
hex = "=0.4.3"
serde = { version = "=1.0.229", features = ["derive"] }
reqwest = { version = "=0.12.28", default-features = false, features = ["blocking", "json"] }
tokio = { version = "=1.54.1", features = ["full"] }
axum = "=0.8.9"
hyper = { version = "=1.12.0", features = ["server", "http1"] }
hyper-util = { version = "=0.1.21", features = ["tokio"] }
http-body-util = "=0.1.5"
bytes = "=1.12.1"
tracing = "=0.1.44"
tracing-subscriber = { version = "=0.3.23", features = ["env-filter"] }
prometheus = { version = "=0.13.4", default-features = false }
rocksdb = { version = "0.22", default-features = false, features = ["multi-threaded-cf"] }

[dev-dependencies]
bincode = "=2.0.1"
