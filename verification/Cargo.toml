[package]
name = "playcaster"
version = "0.1.0"
edition = "2021"
publish = false

[dependencies]
url = "*"
anyhow = "*"
chrono = "*"
clap = { version = "*", features = ["derive"] }
env_logger = "*"
hhmmss = "*"
log = "*"
rss = "*"
serde_json = "*"
thiserror = "*"
youtube_dl = "*"
