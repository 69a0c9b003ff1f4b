[package]
name = "titan_bridge"
version = "0.1.0"
edition = "2021"
publish = false

[dependencies]
crc32fast = "1.3"
chrono = "0.4"
serde = { version = "1.0", features = ["derive"] }
serde_json = "1.0"
once_cell = "1.18"
prost = "0.13"
cxx = "1.0"
