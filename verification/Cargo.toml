[package]
name = "winit_android"
version = "0.1.0"
edition = "2021"
publish = false

[dependencies]
android-activity = { version = "0.6", default-features = false, features = ["game-activity"] }
dpi = "0.1"
raw-window-handle = "0.6"
smol_str = "0.3"
tracing = { version = "0.1", default-features = false }
