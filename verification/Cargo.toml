[package]
name = "desktop_launcher"
version = "0.1.0"
edition = "2021"
publish = false

[dependencies]
anyhow = "=1.0.104"
freedesktop-desktop-entry = "=0.5.2"
gettext-rs = { version = "=0.7.7", features = ["gettext-system"] }
serde = { version = "=1.0.229", features = ["derive"] }
serde_json = "=1.0.154"
