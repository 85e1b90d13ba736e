[package]
name = "hover_dict"
version = "0.1.0"
edition = "2021"
publish = false

[dependencies]
arboard = { version = "~3.3", default-features = false, features = ["image-data"] }
crossbeam-channel = "0.5"
image = { version = "0.24", default-features = false, features = ["ico", "png", "bmp"] }
raw-window-handle = "0.6"
reqwest = { version = "0.12", default-features = false, features = ["blocking", "json", "rustls-tls"] }
rusqlite = { version = "0.31", features = ["bundled"] }
serde = { version = "1", features = ["derive"] }
serde_json = "1"
windows-sys = { version = "0.52", features = ["Win32_Foundation", "Win32_Graphics_Gdi", "Win32_UI_WindowsAndMessaging"] }
