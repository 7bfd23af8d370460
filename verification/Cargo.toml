[package]
name = "msedge_tts"
version = "0.1.0"
edition = "2021"
publish = false

[dependencies]
serde_json = "*"
chrono = "*"
uuid = { version = "*", features = ["v4"] }
sha2 = "*"
base64 = "*"
httparse = "*"
isahc = "*"
tungstenite = { version = "*", features = ["native-tls"] }
native-tls = "*"
http = "*"
async-std = "*"
async-tungstenite = { version = "*", features = ["async-std-runtime", "async-native-tls"] }
async-native-tls = "*"
async-io = "*"
async-lock = "*"
futures-util = "*"
serde = { version = "*", features = ["derive"] }
