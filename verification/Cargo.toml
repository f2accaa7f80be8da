[package]
name = "multiplayer_test"
version = "0.1.0"
edition = "2021"
publish = false

[dependencies]
async-channel = "=2.5.0"
dashmap = "=6.2.1"
postcard = { version = "=1.1.3", features = ["use-std"] }
rand = "=0.10.3"
serde = { version = "=1.0.229", features = ["derive"] }
tokio = { version = "=1.53.2", features = ["rt-multi-thread", "net", "io-util", "time", "macros"] }
