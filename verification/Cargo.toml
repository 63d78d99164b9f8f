[package]
name = "soundscapes"
version = "0.1.0"
edition = "2021"
publish = false

[dependencies]
rand = "0.8"
chrono = "0.4"
serde = { version = "1", features = ["derive"] }
serde_json = "1"
rustfft = "*"
walkdir = "2"
dirs = "*"
parking_lot = "*"
