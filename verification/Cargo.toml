[package]
name = "dir_player"
version = "0.1.0"
edition = "2021"
publish = false

[dependencies]
lazy_static = "*"
neon = "*"
serde = { version = "*", features = ["derive"] }
