[package]
name = "light_control"
version = "0.1.0"
edition = "2021"
publish = false

[dependencies]
chrono = "0.4"
toml = "*"
serde = { version = "1", features = ["derive"] }
serde_json = "1"
rumqttc = { version = "*", default-features = false }
socket2 = { version = "*", features = ["all"] }
