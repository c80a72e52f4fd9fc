[package]
name = "destiny"
version = "0.1.0"
edition = "2021"
publish = false

[dependencies]
dotenvy = "*"
poise = "=0.6.1"
reqwest = { version = "=0.11.27", default-features = false, features = ["rustls-tls"] }
serde = { version = "*", features = ["derive"] }
serenity = { version = "=0.12.1", default-features = false, features = ["builder", "cache", "client", "gateway", "http", "model", "rustls_backend", "voice"] }
songbird = { version = "=0.4.1", features = ["serenity", "driver", "gateway", "builtin-queue"] }
tokio = { version = "*", features = ["macros", "rt-multi-thread", "sync"] }
toml = "0.8"
tracing = "*"
tracing-subscriber = { version = "*", default-features = false, features = ["env-filter", "fmt"] }
