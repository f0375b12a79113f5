[package]
name = "kart_rs"
version = "0.1.0"
edition = "2021"
publish = false

[dependencies]
image = "*"
image_hasher = "*"
clap = { version = "*", features = ["derive"] }
chrono = "*"
serde = { version = "*", features = ["derive"] }
serde_json = "*"
log = "*"
simplelog = "*"
base64 = "*"
