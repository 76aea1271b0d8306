[package]
name = "tos-dream"
version = "0.1.0"
edition = "2021"
publish = false

[dependencies]
regex = "1"
uuid = { version = "1", features = ["v4"] }
base64 = "0.22"
chrono = "0.4"
libc = "0.2"
dirs = "5"
serde = { version = "1", features = ["derive"] }
serde_json = "1"
async-trait = "0.1"
tempfile = "3"
