[package]
name = "autonex_sdk_rust"
version = "0.1.0"
edition = "2021"
publish = false

[dependencies]
borsh = { version = "1", features = ["derive"] }
sha2 = "0.10"
solana-program = "*"
thiserror = "1"
