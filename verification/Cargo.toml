[package]
name = "tray_bridge"
version = "0.1.0"
edition = "2021"
publish = false

[dependencies]
image = { version = "*", default-features = false, features = ["png"] }
tray-icon = "*"
serde = { version = "*", features = ["derive"] }
serde_json = "*"
rand = "*"
