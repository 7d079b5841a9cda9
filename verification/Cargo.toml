[package]
name = "backend_supervisor"
version = "0.1.0"
edition = "2021"
publish = false

[dependencies]
url = "2"
serde_json = "1"
shlex = "1"
home = "0.5"
chrono = "0.4"
serde = { version = "1", features = ["derive"] }
