[package]
name = "flappy_pixel"
version = "0.1.0"
edition = "2021"
publish = false

[dependencies]
bracket-lib = "*"
chrono = { version = "*", features = ["serde"] }
serde = { version = "*", features = ["derive"] }
serde_json = "*"
