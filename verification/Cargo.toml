[package]
name = "usbflash"
version = "0.1.0"
edition = "2021"
publish = false

[dependencies]
rusb = "0.9"
clap = { version = "4", features = ["derive"] }
