[package]
name = "glide_telemetry"
version = "0.1.0"
edition = "2021"
publish = false

[dependencies]
opentelemetry = "0.27"
opentelemetry_sdk = { version = "0.27", features = ["rt-tokio", "testing"] }
opentelemetry-otlp = { version = "0.27", features = ["http-proto", "reqwest-client"] }
url = "2"
tokio = { version = "1", features = ["rt", "rt-multi-thread", "time", "fs"] }

[dev-dependencies]
serde_json = "1"
