[package]
name = "debuggee_sources"
version = "0.1.0"
edition = "2021"
publish = false

[dependencies]
url = "=2.5.8"
uuid = "=1.29.0"
ipc-channel = "=0.20.2"
serde = { version = "=1.0.229", features = ["derive"] }
log = "0.4"
