[package]
name = "munus_job_processor"
version = "0.1.0"
edition = "2021"
publish = false

[dependencies]
calimero-sdk = "=0.10.0"
calimero-storage = "0.10.0"
hex = "=0.4.3"
serde = { version = "=1.0.229", features = ["derive"] }
serde_json = "=1.0.154"
sha2 = "=0.10.9"
