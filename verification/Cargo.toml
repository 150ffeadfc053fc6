[package]
name = "tracing-axiom"
version = "0.7.0"
edition = "2021"
publish = false

[dependencies]
opentelemetry = "0.22"
opentelemetry-otlp = { version = "0.15", default-features = false, features = ["http-proto", "reqwest-client", "trace"] }
opentelemetry-semantic-conventions = "0.14"
opentelemetry_sdk = { version = "0.22", features = ["rt-tokio"] }
reqwest = { version = "0.11", default-features = false }
thiserror = "1"
tracing-core = "0.1"
tracing-opentelemetry = { version = "0.23", default-features = false }
tracing-subscriber = { version = "0.3", default-features = false, features = ["std", "registry"] }
url = "2"
