[package]
name = "tee_consensus"
version = "0.1.0"
edition = "2021"
publish = false

[dependencies]
sha2 = "0.10"
borsh = { version = "1", features = ["derive"] }
chrono = "0.4"
