[package]
name = "spin_pot"
version = "0.1.0"
edition = "2021"
publish = false

[dependencies]
base64 = "0.13"
sha2 = "0.10"
rand_chacha = "0.3"
rand_core = "0.6"
cosmwasm-std = "0.10"
serde = { version = "1", features = ["derive"] }
