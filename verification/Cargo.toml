[package]
name = "rgibberlink-core"
version = "0.1.0"
edition = "2021"
publish = false

[dependencies]
reed-solomon-erasure = "6"
sha2 = "0.10"
hmac = "0.12"
crc32fast = "1"
rand = "0.8"
hex = "0.4"
serde = { version = "1", features = ["derive"] }
serde_json = "1"
thiserror = "1"
