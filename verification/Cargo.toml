[package]
name = "kiosk_hub"
version = "0.1.0"
edition = "2021"
publish = false

[dependencies]
tokio = { version = "*", features = ["full"] }
tokio-tungstenite = "*"
tungstenite = "*"
futures-util = "*"
serde = { version = "*", features = ["derive"] }
serde_derive = "*"
serde_json = "*"
toml = "*"
simplelog = "*"
log = "*"
libc = "*"
evdev = { version = "*", features = ["tokio"] }
rppal = "*"
mfrc522 = "*"
linux-embedded-hal = "*"
embedded-hal = "*"
embedded-hal-bus = "*"
