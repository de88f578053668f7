[package]
name = "dsmr5"
version = "0.1.0"
edition = "2021"
publish = false

[dependencies]
crc16 = "*"
serde = { version = "1", features = ["derive"] }
