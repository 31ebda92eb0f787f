[package]
name = "session_bridge"
version = "0.1.0"
edition = "2021"
publish = false

[dependencies]
base64 = "*"
image = { version = "*", default-features = false, features = ["png", "jpeg", "gif", "bmp"] }
serde = { version = "*", features = ["derive"] }
serde_json = "*"
reqwest = { version = "*", default-features = false, features = ["json", "rustls-tls"] }
tokio = { version = "*", features = ["sync", "rt-multi-thread", "macros"] }
futures = "*"
sys-locale = "*"
