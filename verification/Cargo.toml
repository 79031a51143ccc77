[package]
name = "gz_fuel"
version = "0.1.0"
edition = "2021"
publish = false

[dependencies]
dirs = "*"
ehttp = { version = "*", features = ["native-async"] }
futures-lite = "*"
itertools = "*"
serde = { version = "*", features = ["derive"] }
serde_json = "*"
