[package]
name = "twitch_1337"
version = "0.1.0"
edition = "2021"
publish = false

[dependencies]
chrono = "=0.4.45"
chrono-tz = "=0.10.4"
url = "=2.5.8"
hex = "=0.4.3"
bytesize = "=2.7.0"
regex = "=1.13.1"
rand = "=0.10.3"
serde = { version = "=1.0.229", features = ["derive"] }
serde_json = "=1.0.154"
ron = "=0.12.3"
toml = "=1.1.8"
tokio = { version = "=1.54.1", features = ["full"] }
eyre = "=0.6.14"
thiserror = "=2.0.21"
secrecy = "=0.10.3"
arc-swap = "=1.9.3"
reqwest = { version = "=0.12.28", default-features = false, features = ["json", "stream", "rustls-tls"] }
futures-util = "=0.3.34"
scraper = "=0.29.0"
infer = "=0.22.0"
urlencoding = "=2.1.3"
schemars = "=1.2.3"
humantime-serde = "1"
