[package]
name = "dashboard"
version = "0.1.0"
edition = "2021"
publish = false

[dependencies]
log = "=0.4.34"
serde_json = "=1.0.154"
tauri = { version = "=2.12.5", default-features = false, features = ["wry"] }
tauri-plugin-fs = { version = "=2.7.1", default-features = false }
tauri-plugin-log = { version = "2", default-features = false }
