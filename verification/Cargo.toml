[package]
name = "peer_pid"
version = "0.1.0"
edition = "2021"
publish = false

[dependencies]
libc = "0.2"
tokio-uds = "0.2"
winapi = { version = "0.3", features = ["winsock2"] }
