[package]
name = "trace_carrier"
version = "0.1.0"
edition = "2021"
publish = false

[dependencies]
tonic = { version = "*", default-features = false }
opentelemetry = "*"
tracing = "*"
tracing-opentelemetry = "*"

[dev-dependencies]
opentelemetry_sdk = "*"
