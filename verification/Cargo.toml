[package]
name = "oss_emulator"
version = "1.0.0"
edition = "2021"
publish = false

[dependencies]
axum = "0.7"
chrono = "0.4"
clap = { version = "4", features = ["derive"] }
quick-xml = { version = "0.36", features = ["serialize"] }
serde = { version = "1", features = ["derive"] }
tokio = { version = "1", features = ["macros", "rt-multi-thread", "net"] }
toml = "0.8"
tower-http = { version = "0.5", features = ["cors", "trace"] }
tracing = "0.1"
tracing-subscriber = { version = "0.3", features = ["env-filter"] }
uuid = { version = "1", features = ["v4"] }
walkdir = "2"
