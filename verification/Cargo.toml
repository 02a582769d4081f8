[package]
name = "streamer2"
version = "0.1.0"
edition = "2021"
publish = false

[dependencies]
axum = { version = "0.7", features = ["ws"] }
axum-extra = { version = "0.9", features = ["typed-header"] }
clap = { version = "4", features = ["derive", "env"] }
futures = "0.3"
metrics = "0.22"
metrics-exporter-prometheus = { version = "0.13", default-features = false }
opentelemetry = "0.21"
redis = { version = "0.25", features = ["tokio-comp", "streams", "aio"] }
serde = { version = "1", features = ["derive"] }
serde_json = "1"
tokio = { version = "1", features = ["full"] }
tower-http = { version = "0.5", features = ["trace", "timeout"] }
tracing = "0.1"
tracing-opentelemetry = "0.22"
uuid = { version = "1", features = ["v4"] }
