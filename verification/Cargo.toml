[package]
name = "thermalai_daemon"
version = "0.1.0"
edition = "2021"
publish = false

[dependencies]
anyhow = "1"
flate2 = "1"
libc = "0.2"
serde = { version = "1", features = ["derive"] }
serde_json = "1"
toml = "*"
