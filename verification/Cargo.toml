[package]
name = "effekseer_reader"
version = "0.1.0"
edition = "2021"
publish = false

[dependencies]
flate2 = "1"
zip = { version = "*", default-features = false, features = ["deflate"] }
serde = { version = "1", features = ["derive"] }
serde_json = "1"
thiserror = "*"
log = "0.4"
