[package]
name = "netease_ratui"
version = "0.1.0"
edition = "2021"
publish = false

[dependencies]
aes = "0.8"
base64 = "0.22"
block-padding = "0.3"
cbc = "0.1"
chrono = "0.4"
cipher = "0.4"
cookie = "0.18"
crossterm = "0.28"
directories = "5"
ecb = "0.1"
hex = "0.4"
md-5 = "0.10"
once_cell = "1"
qrcode = { version = "0.14", default-features = false }
rand = "0.8"
ratatui = "0.29"
reqwest = { version = "0.12", default-features = false, features = ["json", "rustls-tls"] }
rsa = "0.9"
serde = { version = "1", features = ["derive"] }
serde_json = "1"
thiserror = "2"
tokio = { version = "1", features = ["rt-multi-thread", "macros", "sync", "time"] }
tracing = "0.1"
unicode-width = "0.2"
urlencoding = "2"
