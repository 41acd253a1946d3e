[package]
name = "estim2b_lib"
version = "0.1.0"
edition = "2021"
publish = false

[dependencies]
serialport = { version = "4", default-features = false }
serde = { version = "1", features = ["derive"] }
rocket = { version = "0.5", features = ["json"] }
