[package]
name = "rustagent"
version = "0.1.0"
edition = "2021"
publish = false

[dependencies]
actix-http = "=3.18.12"
actix-web = "=4.15.0"
config = "=0.15.27"
futures-util = "=0.3.34"
opentelemetry = "=0.33.0"
opentelemetry-otlp = { version = "=0.33.0", features = ["grpc-tonic"] }
opentelemetry-stdout = "=0.33.0"
opentelemetry_sdk = "=0.33.0"
serde = { version = "=1.0.229", features = ["derive"] }
serde_json = "=1.0.151"
