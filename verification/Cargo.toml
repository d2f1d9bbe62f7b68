[package]
name = "nordic_dfu"
version = "0.1.0"
edition = "2021"
publish = false

[dependencies]
crc = "1.8"
serde = { version = "1", features = ["derive"] }
serde_json = "1"
zip = { version = "0.5", default-features = false, features = ["deflate"] }

[dev-dependencies]
bincode = "1.3"
