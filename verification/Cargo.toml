[package]
name = "lumi2d"
version = "0.1.0"
edition = "2021"
publish = false

[dependencies]
crossbeam-channel = "0.5"
uuid = { version = "1", features = ["v4"] }
image = "0.25"
winit = "0.30"
log = "0.4"
