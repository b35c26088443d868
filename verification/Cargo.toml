[package]
name = "focus_capture"
version = "0.1.0"
edition = "2021"
publish = false

[dependencies]
anyhow = "1"
base64 = "0.22"
ctrlc = "3"
futures-util = "0.3"
ico = "0.4"
serde_json = "1"
sha2 = "0.10"
tokio = { version = "1", features = ["rt", "time", "net"] }
tokio-tungstenite = "*"
tray-icon = "*"
windows = { version = "*", features = [
    "Win32_Foundation",
    "Win32_System_ProcessStatus",
    "Win32_System_Threading",
    "Win32_UI_Input_KeyboardAndMouse",
    "Win32_UI_WindowsAndMessaging",
] }
