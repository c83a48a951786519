[package]
name = "felt_ipc"
version = "0.1.0"
edition = "2021"
publish = false

[dependencies]
time = "*"
ipc-channel = "*"
serde = { version = "*", features = ["derive"] }
cookie = "*"
