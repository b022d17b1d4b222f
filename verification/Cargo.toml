[package]
name = "camctrl"
version = "0.1.0"
edition = "2021"
publish = false

[dependencies]
onvif = "*"
url = "2"
chrono = "0.4"
clap = { version = "3", features = ["derive"] }
serde = { version = "1", features = ["derive"] }
serde_json = "1"
tokio = { version = "1", features = ["full"] }
uuid = { version = "1", features = ["v4"] }
yaserde = "*"
nix = "0.23"
log = "0.4"
env_logger = "*"
