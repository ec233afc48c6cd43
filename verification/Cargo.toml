[package]
name = "fanbase"
version = "0.1.0"
edition = "2021"
publish = false

[dependencies]
bounded-collections = "*"
frame-support = "*"
frame-system = "*"
parity-scale-codec = { version = "*", features = ["derive"] }
scale-info = { version = "*", features = ["derive"] }
