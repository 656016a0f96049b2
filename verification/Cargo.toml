[package]
name = "meeting_companion"
version = "0.1.0"
edition = "2021"
publish = false

[dependencies]
rand = "0.8"
serde_yaml = "0.9"
serde = { version = "1", features = ["derive"] }
serde_json = "1"
tokio = { version = "1", features = ["sync", "time", "rt", "macros", "fs"] }
tokio-tungstenite = { version = "0.21", features = ["rustls-tls-webpki-roots"] }
futures-util = "0.3"
log = "0.4"
anyhow = "1"
thiserror = "1"
async-trait = "0.1"
