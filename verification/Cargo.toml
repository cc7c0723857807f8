[package]
name = "github-mirror"
version = "0.1.0"
edition = "2021"
publish = false

[dependencies]
anyhow = "=1.0.104"
async-trait = "=0.1.92"
aws-lc-rs = "=1.19.0"
axum = { version = "=0.8.9", default-features = false, features = ["json", "original-uri", "query", "tokio"] }
chrono = { version = "=0.4.45", default-features = false, features = ["clock", "std"] }
hex = "=0.4.3"
http = "=1.5.0"
opentelemetry = { version = "=0.30.0", default-features = false, features = ["metrics"] }
reqwest = { version = "=0.12.28", default-features = false, features = ["json"] }
sea-orm-migration = { version = "=1.1.20", default-features = false }
serde = { version = "=1.0.229", features = ["derive"] }
serde_json = "=1.0.154"
time = { version = "=0.3.55", features = ["formatting"] }
tokio = { version = "=1.54.1", features = ["macros", "rt", "sync", "time"] }
tokio-util = { version = "=0.7.20", default-features = false }
tracing = "=0.1.44"
url = "=2.5.8"
uuid = { version = "=1.29.0", features = ["v4"] }
