[package]
name = "idlerunner"
version = "0.1.0"
edition = "2021"
publish = false

[dependencies]
serde = { version = "1", features = ["derive"] }
toml = "*"
winapi = { version = "0.3", features = ["winuser", "sysinfoapi"] }
