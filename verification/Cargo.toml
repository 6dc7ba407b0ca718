[package]
name = "culper"
version = "0.1.0"
edition = "2021"
publish = false

[dependencies]
base64 = "0.13"
dirs = "1.0"
failure = "0.1"
serde = { version = "1.0", features = ["derive"] }
toml = "0.5"
