[package]
name = "drag_and_drop_wayland"
version = "0.1.0"
edition = "2021"
publish = false

[dependencies]
base64 = "0.22"
gtk = "0.18"
gdk-pixbuf = "0.18"
serde = { version = "1", features = ["derive"] }
log = "0.4"
tauri = { version = "2", default-features = false }
