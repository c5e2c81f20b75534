[package]
name = "insights_bot"
version = "1.0.0"
edition = "2021"
publish = false

[dependencies]
anyhow = "=1.0.104"
async-openai = { version = "=0.28.3", default-features = false, features = ["rustls-webpki-roots"] }
backoff = { version = "=0.4.0", features = ["tokio"] }
async-trait = "=0.1.92"
axum = { version = "=0.8.9", default-features = false, features = ["http1", "json", "tokio"] }
base64 = "=0.22.1"
chrono = { version = "=0.4.45", default-features = false, features = ["clock"] }
dotenvy = "=0.15.7"
encoding_rs = "=0.8.44"
futures = "=0.3.34"
governor = { version = "=0.10.4", default-features = false, features = ["std"] }
mime = "=0.3.17"
redis = { version = "=1.8.1", default-features = false, features = ["connection-manager", "tokio-comp"] }
regex = "=1.13.1"
reqwest = { version = "=0.12.28", default-features = false, features = ["rustls-tls", "json"] }
scraper = { version = "=0.25.0", default-features = false }
serde = { version = "=1.0.229", features = ["derive"] }
serde_json = "=1.0.154"
sha2 = "=0.10.9"
sqlx = { version = "=0.8.6", default-features = false, features = ["runtime-tokio", "any", "sqlite", "postgres"] }
# Not used here: teloxide depends on it, and 0.1.2 asks for Rust 1.96.
takecell = "=0.1.1"
teloxide = { version = "=0.17.0", default-features = false, features = ["macros", "rustls", "ctrlc_handler", "webhooks-axum"] }
tiktoken-rs = "=0.7.0"
tokio = { version = "=1.54.1", features = ["macros", "rt-multi-thread", "sync", "time", "net", "signal"] }
tracing = "=0.1.44"
tracing-appender = "=0.2.5"
tracing-subscriber = { version = "=0.3.23", default-features = false, features = ["ansi", "env-filter", "fmt"] }
url = "=2.5.8"
uuid = { version = "=1.29.0", features = ["v4"] }
