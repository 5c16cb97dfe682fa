[package]
name = "axis_core"
version = "0.1.0"
edition = "2021"
publish = false

[dependencies]
embassy-sync = "*"

[dev-dependencies]
critical-section = { version = "*", features = ["std"] }
