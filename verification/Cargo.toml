[package]
name = "d-sign"
version = "0.1.0"
edition = "2021"
publish = false

[dependencies]
threshold_crypto = "0.4"
rand = "0.7"
sha2 = "0.10"
aes-gcm = "0.10"
base64 = "0.22"
bincode = "1.3"
uuid = { version = "1", features = ["v4"] }
serde = { version = "1", features = ["derive"] }
libp2p = { version = "0.54", features = ["tokio", "tcp", "noise", "yamux", "mdns", "request-response", "json", "macros"] }
tokio = { version = "1", features = ["macros", "rt-multi-thread", "time"] }
futures = "0.3"
clap = { version = "4", features = ["derive"] }
thiserror = "2"
log = "0.4"
env_logger = "0.11"
anyhow = "1"
hex = "0.4"
async-trait = "0.1"
