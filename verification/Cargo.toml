[package]
name = "guardian_agent"
version = "0.1.0"
edition = "2021"
publish = false

[dependencies]
arboard = { version = "3.6", default-features = false }
enigo = { version = "0.6", default-features = false, features = ["x11rb"] }
futures-util = { version = "0.3", default-features = false, features = ["sink"] }
reqwest = { version = "0.12", default-features = false, features = ["json"] }
serde = { version = "1", features = ["derive"] }
serde_json = "1"
tokio = { version = "1", features = ["fs", "io-util", "macros", "net", "process", "rt-multi-thread", "sync", "time"] }
tokio-tungstenite = "0.28"
webrtc = "0.14"
