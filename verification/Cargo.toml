[package]
name = "rustify"
version = "0.1.0"
edition = "2021"
publish = false

[dependencies]
rand = "=0.10.3"
crossbeam-channel = "=0.5.17"
serde = { version = "=1.0.229", features = ["derive"] }
serde_json = "=1.0.151"
symphonia = { version = "=0.5.5", features = ["mp3"] }
rodio = "=0.21.1"
image = { version = "=0.25.10", default-features = false, features = ["jpeg", "png"] }
