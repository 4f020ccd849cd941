[package]
name = "serve_core"
version = "0.1.0"
edition = "2021"
publish = false

[dependencies]
anyhow = "1"
axum = { version = "0.6", features = ["ws"] }
axum-server = { version = "0.5", features = ["tls-rustls"] }
futures-util = "0.3"
local-ip-address = "0.5"
open = "5"
reqwest = { version = "0.11", default-features = false, features = ["rustls-tls", "stream"] }
tokio = { version = "1", features = ["macros", "rt-multi-thread", "sync"] }
tokio-tungstenite = "0.20"
tower-http = { version = "0.4", features = ["fs", "trace"] }
tracing = "0.1"
