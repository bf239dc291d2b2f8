[package]
name = "ncmdump"
version = "0.1.0"
edition = "2021"
publish = false

[dependencies]
aes = "0.8"
base64 = "0.22"
cbc = "0.1"
cipher = { version = "0.4", features = ["alloc", "block-padding"] }
clap = { version = "4", features = ["derive"] }
dirs = "6"
env_logger = "0.11"
http = "1"
lofty = "*"
log = "0.4"
lzma-rust2 = "*"
num-bigint = "0.4"
rand = "0.9"
reqwest = { version = "0.12", default-features = false, features = ["blocking", "json", "rustls-tls"] }
serde = { version = "1", features = ["derive"] }
serde_json = "1"
snafu = "0.8"
tar = "0.4"
urlencoding = "2"
walkdir = "2"
