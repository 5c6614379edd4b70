[package]
name = "hylandia_api"
version = "0.1.0"
edition = "2021"
publish = false

[dependencies]
anyhow = "=1.0.104"
axum = "=0.7.9"
axum-extra = { version = "=0.9.6", features = ["cookie"] }
base64 = "=0.22.1"
chrono = { version = "=0.4.45", features = ["serde"] }
diesel = { version = "=2.2.12", features = ["postgres", "uuid", "chrono", "network-address"] }
diesel-async = { version = "=0.5.2", features = ["postgres", "bb8"] }
diesel_migrations = { version = "=2.2.0", features = ["postgres"] }
dotenvy = "0.15"
futures-util = "=0.3.34"
ipnetwork = "=0.21.1"
jsonwebtoken = "=9.3.1"
p256 = { version = "=0.13.2", features = ["pem"] }
rand = "=0.8.8"
reqwest = { version = "=0.12.28", default-features = false, features = ["json", "rustls-tls"] }
rustls = { version = "=0.23.46", default-features = false, features = ["ring", "std", "tls12", "logging"] }
sentry = { version = "=0.34.0", default-features = false, features = ["backtrace", "contexts", "panic", "reqwest", "rustls", "tracing"] }
serde = { version = "=1.0.229", features = ["derive"] }
serde_json = "=1.0.154"
sha2 = "=0.10.9"
time = "=0.3.55"
tokio = { version = "=1.54.1", features = ["full"] }
tokio-postgres = "=0.7.18"
tokio-postgres-rustls = "=0.13.0"
tower-http = { version = "=0.5.2", features = ["cors"] }
tracing = "=0.1.44"
tracing-subscriber = { version = "=0.3.23", features = ["env-filter", "json"] }
url = "=2.5.8"
uuid = { version = "=1.29.1", features = ["v4", "serde"] }
webpki-roots = "=0.26.11"
