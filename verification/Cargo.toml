[package]
name = "libra"
version = "0.1.0"
edition = "2021"
publish = false

[dependencies]
iced = { version = "=0.13.1", default-features = false, features = ["tokio", "tiny-skia"] }
idevice = { version = "=0.1.68", features = ["usbmuxd", "afc", "springboardservices", "diagnostics_relay"] }
tokio = { version = "=1.54.1", features = ["rt", "time", "macros"] }
futures = "=0.3.34"
open = "=5.4.5"
