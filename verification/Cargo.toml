[package]
name = "unicreate"
version = "0.1.0"
edition = "2021"
publish = false

[dependencies]
base64 = "0.22"
dirs = "5"
futures-util = "0.3"
keyring = "3"
reqwest = { version = "0.12", features = ["json", "stream"] }
serde = { version = "1", features = ["derive"] }
serde_json = "1"
sha2 = "0.10"
tokio = { version = "1", features = ["full"] }
windows-sys = { version = "0.59", features = ["Win32_Foundation", "Win32_System_Threading"] }
zip = "2"
