[package]
name = "common_core"
version = "0.1.0"
edition = "2021"
publish = false

[dependencies]
anyhow = "*"
bs58 = "*"
curve25519-dalek = "*"
reqwest = { version = "*", default-features = false, features = ["json"] }
reqwest-middleware = "*"
reqwest-retry = "*"
serde = "*"
