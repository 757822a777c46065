[package]
name = "xg2g_transcoder"
version = "0.1.0"
edition = "2021"
publish = false

[dependencies]
ac-ffmpeg = "*"
anyhow = "*"
axum = "*"
bytes = "*"
futures = "*"
http-body-util = "*"
metrics = "*"
metrics-exporter-prometheus = "*"
serde = { version = "*", features = ["derive"] }
symphonia = "*"
tokio = { version = "*", features = ["full"] }
tokio-util = { version = "*", features = ["io"] }
tower-http = { version = "*", features = ["trace", "cors"] }
tracing = "*"
tracing-subscriber = { version = "*", features = ["env-filter"] }
