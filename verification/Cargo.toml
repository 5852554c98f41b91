[package]
name = "backend"
version = "0.1.0"
edition = "2021"
publish = false

[dependencies]
shlex = "*"
chrono = "*"
serde = { version = "*", features = ["derive"] }
serde_json = "*"
axum = { version = "*", features = ["ws"] }
tokio = { version = "*", features = ["rt-multi-thread", "macros", "net", "process"] }
futures-util = "*"
tower-http = { version = "*", features = ["fs", "trace"] }
tracing = "*"
tracing-subscriber = { version = "*", features = ["env-filter"] }
