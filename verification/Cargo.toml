[package]
name = "discord_plugins"
version = "0.1.0"
edition = "2021"
publish = false

[dependencies]
serde = { version = "=1.0.229", features = ["derive"] }
simd-json = "=0.18.1"
sonic-rs = "=0.5.10"
twilight-http = { version = "=0.16.0", default-features = false }
twilight-model = "=0.16.0"
waki = "=0.5.1"
