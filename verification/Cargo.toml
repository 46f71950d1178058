[package]
name = "zk_std"
version = "0.1.0"
edition = "2021"
publish = false

[dependencies]
ethnum = "=1.5.3"
soroban-sdk = { version = "=29.0.1", features = ["hazmat-crypto"] }

[dev-dependencies]
soroban-sdk = { version = "=29.0.1", features = ["testutils", "hazmat-crypto"] }
