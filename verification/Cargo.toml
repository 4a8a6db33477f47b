[package]
name = "xinput_device"
version = "0.1.0"
edition = "2021"
publish = false

[dependencies]
embassy-usb = "*"
embassy-sync = "*"
embassy-futures = "*"
embassy-time = "*"
