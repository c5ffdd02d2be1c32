[package]
name = "burley"
version = "0.1.0"
edition = "2021"
publish = false

[dependencies]
http = "=1.5.0"
chrono = "=0.4.45"
rama = { version = "=0.2.0", features = ["http-full", "rustls"] }
tokio = { version = "=1.54.1", features = ["full"] }
clap = { version = "=4.6.7", features = ["derive", "env"] }
tracing = "=0.1.44"
tracing-subscriber = { version = "=0.3.23", features = ["env-filter"] }
console-subscriber = "=0.5.0"
opentelemetry = "=0.33.1"
opentelemetry_sdk = "=0.33.1"
opentelemetry-stdout = "=0.33.1"
serde = { version = "=1.0.229", features = ["derive"] }
serde_json = "=1.0.154"
serde_with = "=3.24.0"
tempfile = "=3.27.0"
rustls-pemfile = "=2.2.0"
rustls-pki-types = "=1.15.1"
