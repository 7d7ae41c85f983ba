[package]
name = "cosyedit_runtime"
version = "0.1.0"
edition = "2021"
publish = false

[dependencies]
reqwest = { version = "=0.12.28", default-features = false, features = ["multipart", "stream"] }
axum = { version = "=0.7.9", features = ["multipart"] }
tokio = { version = "=1.54.1", features = ["full"] }
tonic = "=0.12.3"
prost = "=0.13.5"
futures-util = "=0.3.34"
tokio-stream = "=0.1.19"
bytes = "=1.12.1"
clap = { version = "=4.6.7", features = ["derive"] }
serde = { version = "=1.0.229", features = ["derive"] }
tower-http = { version = "=0.5.2", features = ["cors"] }
tracing = "=0.1.44"
tracing-subscriber = { version = "=0.3.23", features = ["env-filter"] }
ort = { version = "=2.0.0-rc.10", default-features = false, features = ["load-dynamic"] }
