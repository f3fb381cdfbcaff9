[package]
name = "voice_relay"
version = "0.1.0"
edition = "2021"
publish = false

[dependencies]
tokio = { version = "*", features = ["rt-multi-thread", "net", "sync", "time", "macros", "io-util"] }
tokio-tungstenite = "*"
futures-util = "*"
serde = { version = "*", features = ["derive"] }
serde_json = "*"
thiserror = "*"
portable-pty = "*"
async-trait = "*"

[dev-dependencies]
serde_json = "*"
