[package]
name = "image_search"
version = "0.1.0"
edition = "2021"
publish = false

[dependencies]
aes-gcm = "*"
anyhow = "*"
argon2 = "*"
base64 = "*"
chrono = "*"
env_logger = "*"
grammers-client = "*"
grammers-session = "*"
grammers-tl-types = "*"
log = "*"
rand = "*"
rpassword = "*"
serde = { version = "*", features = ["derive"] }
serde_json = "*"
tesseract = "*"
tokio = { version = "*", features = ["macros", "rt-multi-thread", "time"] }
