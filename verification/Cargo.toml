[package]
name = "profile_import"
version = "0.1.0"
edition = "2021"
publish = false

[dependencies]
dirs-next = "2"
eyre = "0.6"
log = "0.4"
serde = { version = "1", features = ["derive"] }
serde_yaml = "0.9"
tauri = { version = "2", default-features = false }
tokio = { version = "1", features = ["time"] }
