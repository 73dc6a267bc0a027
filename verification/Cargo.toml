[package]
name = "comfyui_launcher"
version = "0.1.0"
edition = "2021"
publish = false

[dependencies]
url = "2"
serde = { version = "1", features = ["derive"] }
serde_json = "1"
tokio = { version = "1", features = ["process", "sync", "time", "io-util", "rt", "macros"] }
reqwest = { version = "0.12", default-features = false }
tauri = { version = "2", default-features = false }
