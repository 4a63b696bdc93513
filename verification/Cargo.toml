[package]
name = "openpelta"
version = "0.1.0"
edition = "2021"
publish = false

[dependencies]
anyhow = "=1.0.104"
serde = { version = "=1.0.229", features = ["derive"] }
serde_json = "=1.0.154"
toml = "=0.9.12"
hidapi = { version = "=2.6.7", default-features = false, features = ["linux-native-basic-udev"] }
global-hotkey = "=0.6.4"
tracing = "=0.1.44"
tracing-subscriber = "=0.3.23"
windows = { version = "0.58", features = ["Win32_Foundation", "Win32_System_Threading", "Win32_UI_WindowsAndMessaging", "Win32_Media_Audio", "Win32_Media_Audio_Endpoints", "Win32_System_Com"] }
