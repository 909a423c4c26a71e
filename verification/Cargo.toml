[package]
name = "poet"
version = "0.1.0"
edition = "2021"
publish = false

[dependencies]
actix-web = "=4.18.1"
anyhow = "=1.0.104"
base64 = "=0.22.1"
clap = { version = "=4.6.7", features = ["derive"] }
env_logger = "=0.11.11"
http = "=1.5.0"
log = "=0.4.35"
markdown = "=1.0.0"
mime = "=0.3.17"
mime_guess = "=2.0.5"
rhai = "=1.27.0"
rhai_components = "=0.5.12"
serde = { version = "=1.0.229", features = ["derive"] }
serde_json = "=1.0.154"
sitemap-rs = "=0.7.0"
slug = "=0.1.6"
syntect = { version = "*", default-features = false, features = ["default-fancy"] }
toml = "=1.1.8"
uuid = { version = "=1.29.0", features = ["v4"] }
