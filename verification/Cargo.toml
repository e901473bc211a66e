[package]
name = "clock_core"
version = "0.1.0"
edition = "2021"
publish = false

[dependencies]
embassy-time = { version = "*", features = ["std"] }
embassy-sync = { version = "*", features = ["std"] }
embassy-futures = "*"
critical-section = { version = "*", features = ["std"] }
