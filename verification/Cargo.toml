[package]
name = "printer_bridge"
version = "0.1.0"
edition = "2021"
publish = false

[dependencies]
base64 = "=0.22.1"
printers = "2"
tauri = { version = "2", default-features = false }
