[package]
name = "rssust"
version = "0.1.0"
edition = "2021"
publish = false

[dependencies]
anyhow = "1"
chrono = "0.4"
hex = "0.4"
md-5 = "0.10"
mdbook = { version = "0.4", default-features = false }
regex = "1"
reqwest = { version = "0.12", features = ["blocking", "cookies"] }
rss = "2"
scraper = "*"
serde = { version = "1", features = ["derive"] }
serde_json = "1"
sha1 = "0.10"
threadpool = "1"
tokio = { version = "1", features = ["full"] }
toml = "0.8"
tracing = "0.1"
tracing-log = "0.2"
tracing-subscriber = { version = "0.3", features = ["env-filter"] }
urlencoding = "2"
