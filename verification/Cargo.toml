[package]
name = "mintlayer_zk"
version = "0.1.0"
edition = "2021"
publish = false

[dependencies]
parity-scale-codec = "3"
serde = { version = "1", features = ["derive"] }
serde_json = "1"
tokio = { version = "1", features = ["rt-multi-thread", "macros", "sync", "net"] }
axum = { version = "0.8", features = ["ws"] }
strum = { version = "*", features = ["derive"] }
anyhow = "1"
