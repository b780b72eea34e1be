[package]
name = "window_shell"
version = "0.1.0"
edition = "2021"
publish = false

[dependencies]
lazy_static = "1"
tauri = { version = "2", default-features = false, features = ["wry"] }
