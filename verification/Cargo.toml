[package]
name = "baklog_desktop"
version = "0.1.0"
edition = "2021"
publish = false

[dependencies]
getrandom = "0.3"
keyring = { version = "3", features = ["apple-native", "windows-native", "linux-native"] }
serde = { version = "1", features = ["derive"] }
serde_json = "1"
