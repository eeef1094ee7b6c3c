[package]
name = "arrow_core"
version = "0.1.0"
edition = "2021"

[dependencies]
chrono = { version = "0.4", default-features = false }
num-traits = "0.2"
strength_reduce = "0.2"
