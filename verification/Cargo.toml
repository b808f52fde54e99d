[package]
name = "rmcp"
version = "0.1.0"
edition = "2021"
publish = false

[dependencies]
bytes = "=1.12.1"
serde = { version = "=1.0.229", features = ["derive"] }
serde_json = "=1.0.154"
rand = "=0.9.5"
url = "=2.5.8"
tokio = { version = "=1.54.1", features = ["full"] }
tokio-util = { version = "=0.7.20", features = ["codec"] }
tokio-stream = "=0.1.19"
futures = "=0.3.34"
pin-project-lite = "=0.2.17"
schemars = "=0.8.22"
thiserror = "=2.0.21"
tracing = "=0.1.44"
http = "=1.5.0"
http-body = "=1.1.0"
http-body-util = "=0.1.5"
tower-service = "=0.3.3"
sse-stream = "=0.3.0"
syn = { version = "=2.0.119", features = ["full"] }
quote = "=1.0.47"
proc-macro2 = "=1.0.107"
darling = "=0.20.11"
reqwest = { version = "0.12", default-features = false, features = ["json", "stream"] }
axum = { version = "0.8", default-features = false, features = ["json", "query", "tokio", "http1"] }
