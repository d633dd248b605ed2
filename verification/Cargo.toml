[package]
name = "app_bootstrap"
version = "0.1.0"
edition = "2021"
publish = false

[dependencies]
log = "*"
tauri = { version = "*", default-features = false }
tauri-plugin-log = { version = "*", default-features = false }
