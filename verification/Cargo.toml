[package]
name = "netpulse"
version = "0.1.0"
edition = "2021"
publish = false

[dependencies]
url = "2"
cron = "0.12"
chrono = "0.4"
ring = "0.17"
base64 = "0.22"
serde = { version = "1", features = ["derive"] }
serde_json = "1"
anyhow = "1"
tokio = { version = "1", features = ["rt-multi-thread", "macros", "net", "time", "sync", "fs"] }
axum = { version = "0.7", features = ["ws"] }
sqlx = { version = "0.7", default-features = false, features = ["runtime-tokio", "sqlite", "macros"] }
tracing = "0.1"
tracing-subscriber = { version = "0.3", features = ["env-filter", "json"] }
tracing-appender = "0.2"
tower-http = { version = "0.5", features = ["cors", "fs"] }
uuid = { version = "1", features = ["v4"] }
bcrypt = "0.15"
jsonwebtoken = "9"
futures = "0.3"
csv = "1"
rust_xlsxwriter = "0.79"
async-trait = "0.1"
config = { version = "0.14", default-features = false, features = ["toml"] }
reqwest = { version = "0.12", default-features = false, features = ["rustls-tls", "stream"] }
hickory-resolver = "0.24"
chromiumoxide = { version = "0.7", default-features = false, features = ["tokio-runtime"] }
