[package]
name = "webview_recovery"
version = "0.1.0"
edition = "2021"
publish = false

[dependencies]
raw-window-handle = "0.6"
tracing = { version = "0.1", default-features = false, features = ["std"] }
tauri = { version = "~2.12", default-features = false, features = ["wry"] }
windows = { version = "0.62", features = ["Win32_Foundation", "Win32_UI_WindowsAndMessaging"] }
