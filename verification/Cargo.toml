[package]
name = "koe"
version = "0.1.0"
edition = "2021"
publish = false

[dependencies]
flate2 = "1"
serde_json = { version = "1", features = ["preserve_order"] }
base64 = "0.22"
uuid = { version = "1", features = ["v4"] }
url = "2"
serde = { version = "1", features = ["derive"] }
serde_yaml = "0.9"
log = "0.4"
env_logger = "0.11"
tokio = { version = "1", features = ["rt-multi-thread", "net", "time", "io-util", "macros", "sync"] }
tokio-tungstenite = { version = "0.26", features = ["rustls-tls-webpki-roots"] }
futures-util = { version = "0.3", features = ["sink"] }
async-trait = "0.1"
windows = { version = "0.61", features = ["Win32_Foundation", "Win32_UI_WindowsAndMessaging", "Win32_UI_Input_KeyboardAndMouse", "Win32_UI_Shell", "Win32_Graphics_Gdi", "Win32_System_LibraryLoader", "Win32_System_Com", "Win32_Media_Audio", "Win32_System_Threading", "Win32_System_DataExchange", "Win32_System_Memory", "Win32_System_Diagnostics_Debug"] }
