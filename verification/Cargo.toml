[package]
name = "rmcp"
version = "0.1.0"
edition = "2021"
publish = false

[dependencies]
futures = "0.3"
pin-project-lite = "0.2"
proc-macro2 = "1"
quote = "1"
schemars = "0.8"
serde = { version = "1", features = ["derive"] }
serde_json = "1"
syn = { version = "2", features = ["full", "extra-traits"] }
thiserror = "2"
tokio = { version = "1", features = ["sync", "rt", "rt-multi-thread", "macros", "process", "io-util", "io-std", "time"] }
tokio-util = "0.7"
tower-service = "0.3"
tracing = "0.1"
wasi = "0.11"
