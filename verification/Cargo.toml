[package]
name = "cfmms"
version = "0.1.0"
edition = "2021"
publish = false

[dependencies]
serde_json = "1"
tokio = { version = "1", features = ["rt-multi-thread", "macros", "time"] }
indicatif = "0.17"
ethers-providers = "2"
ethers-core = "2"
