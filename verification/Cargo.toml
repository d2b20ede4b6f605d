[package]
name = "custom-rss"
version = "0.1.0"
edition = "2021"
publish = false

[dependencies]
anyhow = "1"
axum = "*"
chrono = "0.4"
chrono-tz = "*"
env_logger = "*"
lexopt = "*"
log = "0.4"
reqwest = "*"
rss = "2"
scraper = "*"
tokio = { version = "1", features = ["macros", "rt-multi-thread", "net"] }
