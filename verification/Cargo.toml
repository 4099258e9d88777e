[package]
name = "kets"
version = "0.1.0"
edition = "2021"
publish = false

[dependencies]
serde = { version = "1", features = ["derive"] }
lazy_static = "1"

[dev-dependencies]
rand = "0.8"
