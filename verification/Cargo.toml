[package]
name = "moq_xr"
version = "0.1.0"
edition = "2021"
publish = false

[dependencies]
anyhow = "1"
bincode = "1"
bytes = "1"
futures-util = { version = "*", features = ["sink"] }
hang = "*"
moq-lite = "*"
moq-native = "*"
openh264 = "*"
openxr = { version = "*", features = ["linked"] }
serde = { version = "1", features = ["derive"] }
tokio = { version = "1", features = ["full"] }
tokio-tungstenite = "*"
toml = "*"
tracing = "*"
url = "2"
