[package]
name = "cc_core"
version = "0.1.0"
edition = "2021"
publish = false

[dependencies]
fixed = "1"
serde = { version = "1", features = ["derive"] }
ron = "0.8"
noise = "0.9"
rand = "0.8"
