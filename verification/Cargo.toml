[package]
name = "eleventh_echo"
version = "0.1.0"
edition = "2021"
publish = false

[dependencies]
base64 = "=0.22.1"
cpal = "=0.15.3"
env_logger = "=0.11.11"
futures-util = "=0.3.34"
http = "=1.5.0"
rubato = "=0.14.1"
serde_json = "=1.0.154"
tokio = { version = "=1.54.1", features = ["macros", "net", "rt-multi-thread", "sync"] }
tokio-tungstenite = { version = "=0.21.0", features = ["native-tls"] }
url = "=2.5.8"
windows = { version = "=0.54.0", features = ["Win32_Foundation", "Win32_UI_Input_KeyboardAndMouse"] }
