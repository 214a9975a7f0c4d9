[package]
name = "bilibili_music"
version = "0.1.0"
edition = "2021"
publish = false

[dependencies]
rand = "=0.8.8"
serde = { version = "=1.0.229", features = ["derive"] }
serde_json = "=1.0.154"
ureq = "=2.12.1"
xdg = "=2.5.2"
anyhow = "=1.0.104"
log = "=0.4.34"
pretty_env_logger = "=0.5.0"
