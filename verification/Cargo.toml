[package]
name = "rusty_web_core"
version = "0.1.0"
edition = "2021"
publish = false

[dependencies]
serde_json = "1"
winit = { version = "0.30", default-features = false, features = ["rwh_06", "x11"] }
wry = { version = "*", default-features = false }
