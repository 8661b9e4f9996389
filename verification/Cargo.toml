[package]
name = "sensor_node"
version = "0.1.0"
edition = "2021"

[dependencies]
heapless = "=0.8.0"
embassy-sync = "*"

[dev-dependencies]
critical-section = { version = "*", features = ["std"] }
