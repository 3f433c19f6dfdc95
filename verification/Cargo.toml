[package]
name = "pico"
version = "0.1.0"
edition = "2021"
publish = false

[dependencies]
dirs = "*"
lazy_static = "1"
serde = { version = "1", features = ["derive"] }
termion = "*"
toml = "*"
