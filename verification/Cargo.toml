[package]
name = "docker_facade"
version = "0.1.0"
edition = "2021"
publish = false

[dependencies]
bollard = "*"
futures-util = "*"
serde = { version = "*", features = ["derive"] }
serde_json = "*"
