[package]
name = "ezlogin"
version = "0.1.0"
edition = "2021"
publish = false

[dependencies]
aes-gcm = "0.10"
base64 = "0.22"
sha2 = "0.10"
serde_urlencoded = "0.7"
serde = { version = "1", features = ["derive"] }
serde_json = "1"
anyhow = "1"
chrono = "0.4"
dirs = "*"
reqwest = { version = "0.12", default-features = false, features = ["rustls-tls", "cookies"] }
tokio = { version = "1", features = ["rt", "macros", "time"] }
clap = { version = "4", features = ["derive"] }
clap_complete = "4"
clap_mangen = "*"
rpassword = "7"
image = { version = "*", default-features = false, features = ["png", "jpeg"] }
tract-onnx = "*"
