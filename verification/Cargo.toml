[package]
name = "smart_refresh"
version = "0.1.0"
edition = "2021"
publish = false

[dependencies]
futures-util = "0.3"
libc = "0.2"
serde = { version = "1", features = ["derive"] }
serde_json = "1"
thiserror = "1"
tokio = { version = "1", features = ["full"] }
tracing = "0.1"
tracing-appender = "0.2"
tracing-subscriber = { version = "0.3", features = ["env-filter", "json", "time"] }
zbus = { version = "4", default-features = false, features = ["tokio"] }
