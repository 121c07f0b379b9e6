[package]
name = "request_metrics"
version = "0.1.0"
edition = "2021"
publish = false

[dependencies]
opentelemetry = { version = "0.17", features = ["metrics"] }
opentelemetry-prometheus = "0.10"
prometheus = "0.13"
tide = "0.16"
tokio = { version = "1", features = ["macros", "rt-multi-thread"] }
