[package]
name = "http_serve"
version = "0.1.0"
edition = "2021"
publish = false

[dependencies]
axum = { version = "=0.8.9", default-features = false, features = ["http1", "tokio"] }
tokio = { version = "=1.54.1", features = ["rt-multi-thread", "net", "sync"] }
nu-plugin = { version = "=0.114.1", default-features = false }
nu-protocol = { version = "=0.114.1", default-features = false }

[dev-dependencies]
tower = { version = "=0.5.3", features = ["util"] }
