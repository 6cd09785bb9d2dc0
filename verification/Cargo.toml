[package]
name = "serial_connection"
version = "0.1.0"
edition = "2021"
publish = false

[dependencies]
serialport = { version = "=4.2.2", default-features = false }
serde = { version = "1", features = ["derive"] }
