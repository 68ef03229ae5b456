[package]
name = "qq_banner"
version = "0.1.0"
edition = "2021"
publish = false

[dependencies]
anyhow = "=1.0.104"
axum = "=0.8.9"
axum-extra = { version = "=0.10.3", features = ["cookie-private"] }
cached = { version = "=4.1.0", features = ["async"] }
chrono = "=0.4.45"
futures-util = "=0.3.34"
jsonwebtoken = "=9.3.1"
reqwest = { version = "=0.12.28", default-features = false, features = ["json"] }
serde = { version = "=1.0.229", features = ["derive"] }
serde_json = "=1.0.154"
serde_repr = "=0.1.21"
sled = "=0.34.7"
thiserror = "=2.0.21"
toasty = { version = "=0.11.0", features = ["sqlite"] }
toasty-cli = "=0.11.0"
tokio = { version = "=1.54.1", features = ["macros", "rt-multi-thread", "time", "net"] }
tokio-cron-scheduler = "=0.15.1"
tokio-stream = "=0.1.19"
tower-http = { version = "=0.6.11", features = ["cors", "compression-gzip"] }
tracing = "=0.1.44"
tracing-subscriber = { version = "=0.3.23", features = ["env-filter", "chrono"] }
uuid = { version = "=1.29.0", features = ["v4"] }
