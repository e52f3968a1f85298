[package]
name = "fibonacci_server"
version = "0.1.0"
edition = "2021"
publish = false

[dependencies]
actix-web = "=4.18.1"
actix-web-opentelemetry = { version = "=0.19.0", features = ["metrics"] }
opentelemetry = "=0.24.0"
opentelemetry_sdk = { version = "=0.24.1", features = ["rt-tokio-current-thread"] }
opentelemetry-otlp = { version = "=0.17.0", features = ["metrics", "tls", "tls-roots"] }
serde = { version = "=1.0.229", features = ["derive"] }
tonic = { version = "=0.12.3", features = ["tls", "tls-roots"] }
