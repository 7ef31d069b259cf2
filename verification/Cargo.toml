[package]
name = "pit_wall"
version = "0.1.0"
edition = "2021"
publish = false

[dependencies]
humantime = "2"
tracing = { version = "0.1", default-features = false, features = ["std"] }
