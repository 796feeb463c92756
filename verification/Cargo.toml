[package]
name = "kaikei_voice"
version = "0.1.0"
edition = "2021"
publish = false

[dependencies]
bzip2 = "0.6"
futures-util = "0.3"
hound = "3.5"
reqwest = { version = "0.12", default-features = false, features = ["json", "multipart", "stream", "rustls-tls"] }
serde = { version = "1", features = ["derive"] }
serde_json = "1"
tar = "0.4"
tokio = { version = "1", features = ["sync", "time"] }
tokio-tungstenite = "0.24"
uuid = { version = "1", features = ["v4"] }
