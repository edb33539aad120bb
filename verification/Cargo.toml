[package]
name = "kiro_auth"
version = "0.1.0"
edition = "2021"
publish = false

[dependencies]
sha2 = "*"
hex = "*"
base64 = "*"
rand = "*"
uuid = { version = "*", features = ["v4"] }
chrono = "*"
urlencoding = "*"
cookie = "*"
url = "*"
serde = { version = "*", features = ["derive"] }
serde_json = "*"
ciborium = "*"
reqwest = { version = "*", default-features = false, features = ["rustls-tls", "json"] }
tokio = { version = "*", features = ["rt-multi-thread", "macros", "time"] }
dirs = "*"
open = "*"
