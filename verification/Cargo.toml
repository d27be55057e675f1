[package]
name = "ckc_rs"
version = "0.1.0"
edition = "2021"
publish = false

[dependencies]
serde = { version = "1", features = ["derive"] }
bitvec = "1"
strum = { version = "0.26", features = ["derive"] }
