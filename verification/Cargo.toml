[package]
name = "mcp_hyper_server"
version = "0.1.0"
edition = "2021"
publish = false

[dependencies]
axum = "=0.8.9"
axum-server = { version = "=0.7.3", default-features = false, features = ["tls-rustls-no-provider"] }
futures = "=0.3.34"
rust-mcp-schema = "=0.9.6"
tokio = { version = "=1.54.1", features = ["rt-multi-thread", "macros", "signal", "net", "time", "sync"] }
tracing = "=0.1.44"

[dev-dependencies]
tempfile = "=3.27.0"
