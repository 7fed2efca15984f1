[package]
name = "voice_pipeline"
version = "0.1.0"
edition = "2021"
publish = false

[dependencies]
reqwest = { version = "=0.12.28", default-features = false, features = ["json", "stream", "multipart", "rustls-tls"] }
serde = { version = "=1.0.229", features = ["derive"] }
serde_json = "=1.0.154"
base64 = "=0.22.1"
tokio = { version = "=1.54.1", features = ["time"] }
async-trait = "=0.1.92"
futures-util = "=0.3.34"
