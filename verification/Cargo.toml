[package]
name = "discord_avatar_api"
version = "0.1.0"
edition = "2021"
publish = false

[dependencies]
axum = "0.6"
http = "0.2"
serde = { version = "1", features = ["derive"] }
tokio = { version = "1", features = ["macros", "rt-multi-thread", "signal"] }
tower = { version = "0.4", features = ["timeout"] }
tower-http = { version = "0.4", features = ["request-id", "trace", "compression-gzip", "compression-br", "compression-zstd"] }
tower_governor = "0.1"
tracing = "0.1"
tracing-subscriber = { version = "0.3", features = ["env-filter"] }
twilight-http = "0.15"
twilight-model = "0.15"

[dev-dependencies]
regex = "1"
