[package]
name = "fursuit_fan_controller_fw"
version = "0.1.0"
edition = "2021"
publish = false

[dependencies]
sequential-storage = { version = "*", features = ["_test"] }
embassy-futures = "*"
embassy-sync = "*"
embassy-time = "*"
debouncr = "*"
