[package]
name = "cas_login"
version = "0.1.0"
edition = "2021"
publish = false

[dependencies]
base64 = "0.22"
rsa = "0.9"
scraper = "*"
serde_json = "1"
urlencoding = "2"
reqwest = { version = "0.12", features = ["cookies", "json"] }
tokio = { version = "1", features = ["macros", "rt-multi-thread", "time"] }
serde = { version = "1", features = ["derive"] }
thiserror = "1"
log = "0.4"
log4rs = "1"
dotenv = "0.15"
