[package]
name = "tauri-plugin-libmpv"
version = "0.1.0"
edition = "2021"
publish = false

[dependencies]
base64 = "=0.22.1"
glutin = { version = "=0.32.3", default-features = false, features = ["egl", "glx", "x11"] }
indexmap = "=2.14.2"
libmpv-sys = "*"
log = "=0.4.34"
raw-window-handle = "=0.6.2"
scopeguard = "=1.2.0"
serde = { version = "=1.0.229", features = ["derive"] }
serde_json = { version = "=1.0.154", features = ["preserve_order"] }
tauri = { version = "=2.12.5", default-features = false }
thiserror = "=1.0.69"
