[package]
name = "bser_roundtrip"
version = "0.1.0"
edition = "2021"
publish = false

[dependencies]
serde = { version = "*", features = ["derive"] }
serde_bser = "*"
libfuzzer-sys = { version = "*", default-features = false }
