[package]
name = "screenocr"
version = "0.1.0"
edition = "2021"
publish = false

[dependencies]
anyhow = "1"
base64 = "0.13"
dirs = "*"
global-hotkey = "*"
image = { version = "0.24", default-features = false, features = ["png"] }
screenshots = "*"
serde = { version = "1", features = ["derive"] }
serde_json = "1"
tokio = { version = "1", default-features = false, features = ["rt", "time", "macros"] }
