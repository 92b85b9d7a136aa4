[package]
name = "pcm_auto_decoder"
version = "0.1.0"
edition = "2021"
publish = false

[dependencies]
anyhow = "*"
clap = { version = "*", features = ["derive"] }
libpulse-binding = "*"
libpulse-simple-binding = "*"

[dev-dependencies]
base64 = "*"
