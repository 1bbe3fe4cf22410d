[package]
name = "zeit"
version = "0.1.0"
edition = "2021"
publish = false

[dependencies]
chrono = { version = "0.4", default-features = false, features = ["clock", "std"] }
clap = "4"
toml = { version = "0.9", features = ["preserve_order"] }
uuid = { version = "1", features = ["v4"] }
