[package]
name = "aicheck"
version = "0.1.0"
edition = "2021"
publish = false

[dependencies]
anyhow = "1.0.104"
c2pa = { version = "=0.88.0", features = ["file_io"] }
colored = "3.1.1"
image = { version = "0.25.10", default-features = false, features = ["png", "jpeg"] }
infer = "0.22.0"
kamadak-exif = "0.6.1"
rustfft = "6.4.1"
serde = { version = "1.0.229", features = ["derive"] }
serde_json = "1.0.154"
