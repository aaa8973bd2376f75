[package]
name = "dice"
version = "0.1.0"
edition = "2021"
publish = false

[dependencies]
chrono = { version = "0.4", default-features = false, features = ["clock", "serde", "std"] }
rand = "0.4"
serde = { version = "1", features = ["derive"] }
uuid = { version = "0.6", features = ["v4"] }
