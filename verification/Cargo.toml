[package]
name = "ledragon"
version = "0.1.0"
edition = "2021"
publish = false

[dependencies]
usb-device = "0.2"
teensy4-bsp = { version = "0.4", features = ["rt"] }
teensy4-panic = "0.2"
rtic = { version = "2", features = ["thumbv7-backend"] }
