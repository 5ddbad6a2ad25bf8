[package]
name = "iced_gauges"
version = "0.1.0"
edition = "2021"
publish = false

[dependencies]
iced = { version = "0.13", default-features = false, features = ["canvas", "tiny-skia"] }
