[package]
name = "wishlist"
version = "0.1.0"
edition = "2021"
publish = false

[dependencies]
async-graphql = { version = "=7.2.1", features = ["bson", "chrono", "log"] }
async-graphql-axum = "=7.2.1"
axum = "=0.8.9"
axum-otel-metrics = "=0.14.1"
bson = "=2.15.0"
clap = { version = "=4.6.7", features = ["derive"] }
futures = "0.3"
log = "0.4"
mongodb = "=2.8.2"
once_cell = "1"
opentelemetry = "=0.32.0"
opentelemetry-otlp = "=0.32.0"
opentelemetry_sdk = "=0.32.1"
serde = { version = "1", features = ["derive"] }
serde_json = "1"
simple_logger = "=5.2.0"
tokio = { version = "1", features = ["full"] }
