[package]
name = "beat_hard_combat"
version = "0.1.0"
edition = "2021"
publish = false

[dependencies]
axum = { version = "*", features = ["ws"] }
bluest = "*"
futures = "*"
once_cell = "*"
serde = { version = "*", features = ["derive"] }
serde_json = "*"
tokio = { version = "*", features = ["rt-multi-thread", "macros", "sync", "time", "net"] }
tower-http = { version = "*", features = ["fs"] }
tracing = "*"
tracing-subscriber = { version = "*", features = ["env-filter"] }
