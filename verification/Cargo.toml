[package]
name = "editor_backend"
version = "0.1.0"
edition = "2021"
publish = false

[dependencies]
encoding_rs = "0.8"
tauri = { version = "2", default-features = false, features = ["wry"] }
winapi = { version = "0.3", features = ["shellapi", "winuser", "commdlg", "windef"] }
