[package]
name = "libclockrobustus"
version = "0.1.0"
edition = "2021"
publish = false

[dependencies]
chrono = "0.4"
sqlite = "*"
zmq = "0.10"
ctrlc = "3"
serde = { version = "1", features = ["derive"] }
