[package]
name = "window_bootstrap"
version = "0.1.0"
edition = "2021"
publish = false

[dependencies]
tauri = { version = "2", default-features = false, features = ["wry"] }
raw-window-handle = "0.6"
