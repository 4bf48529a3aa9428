[package]
name = "noto_m"
version = "0.1.0"
edition = "2021"
publish = false

[dependencies]
sha2 = "0.10"
hex = "0.4"
base64 = "0.22"
rand = "0.8"
x25519-dalek = "2"
serde = { version = "1", features = ["derive"] }
serde_json = "1"
tokio = { version = "1", features = ["full"] }
futures = "0.3"
libp2p = { version = "0.54", features = ["tokio", "tcp", "noise", "yamux", "kad", "identify", "relay", "dcutr", "request-response", "json", "macros"] }
