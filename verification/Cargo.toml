[package]
name = "mailbackup"
version = "0.1.0"
edition = "2021"
publish = false

[dependencies]
sha2 = "*"
hex = "*"
tar = "*"
zip = { version = "*", default-features = false, features = ["deflate"] }
chrono = "*"
clap = { version = "*", features = ["derive"] }
dotenv = "*"
env_logger = "*"
imap = "*"
indicatif = "*"
indicatif-log-bridge = "*"
log = "*"
native-tls = "*"
