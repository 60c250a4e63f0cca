[package]
name = "voicepipe"
version = "0.1.0"
edition = "2021"
publish = false

[dependencies]
serde = { version = "*", features = ["derive"] }
serde_json = "*"
uuid = { version = "*", features = ["v4"] }
chrono = "*"
hound = "*"
cpal = "*"
rodio = "*"
reqwest = { version = "*", default-features = false, features = ["blocking", "json"] }
dirs = "*"
walkdir = "*"
whisper-rs = "*"
