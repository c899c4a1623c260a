[package]
name = "tracing_pipeline"
version = "0.1.0"
edition = "2021"
publish = false

[dependencies]
monoio = "0.2"
opentelemetry = "0.18"
tracing = "0.1"
tracing-opentelemetry = "0.18"
tracing-subscriber = "0.3"
