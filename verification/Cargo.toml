[package]
name = "sysfeed"
version = "0.1.0"
edition = "2021"
publish = false

[dependencies]
axum = { version = "0.6", features = ["ws", "macros"] }
serde = { version = "1", features = ["derive"] }
serde_json = "1"
sysinfo = { version = "0.29", default-features = false }
tokio = { version = "1", features = ["macros", "rt-multi-thread", "sync"] }
tower-http = { version = "0.4", features = ["fs"] }
tracing-subscriber = "0.3"
