[package]
name = "demo"
version = "0.1.0"
edition = "2021"
publish = false

[dependencies]
heapless = { version = "=0.8.0", features = ["serde"] }
serde = { version = "=1.0.229", features = ["derive"] }
postcard = { version = "=1.1.3", features = ["use-std"] }
postcard-rpc = { version = "=0.11.15", features = ["use-std"] }
postcard-schema = { version = "=0.2.5", features = ["derive", "heapless-v0_8"] }
poststation-sdk = "=0.4.1"
tokio = { version = "=1.54.1", features = ["rt-multi-thread", "macros", "time"] }
