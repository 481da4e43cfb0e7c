[package]
name = "spacebot"
version = "0.1.0"
edition = "2021"
publish = false

[dependencies]
base64 = "*"
chrono = "*"
dirs = "*"
regex = "*"
serde = { version = "*", features = ["derive"] }
serde_json = "*"
tokio = { version = "*", features = ["rt-multi-thread", "sync", "macros", "time"] }
toml = "*"
toml_edit = "*"
uuid = { version = "*", features = ["v4"] }
