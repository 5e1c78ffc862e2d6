[package]
name = "rutsubo"
version = "0.1.0"
edition = "2021"
publish = false

[dependencies]
async-openai = { version = "=0.43.0", default-features = false, features = ["chat-completion-types"] }
axum = { version = "=0.8.9", features = ["ws", "multipart"] }
base64 = "=0.22.1"
chrono = { version = "=0.4.45", features = ["serde"] }
directories = "=6.0.0"
dotenvy = "=0.15.7"
ed25519-dalek = "=2.2.0"
futures = "=0.3.34"
grep-regex = "=0.1.14"
grep-searcher = "=0.1.17"
ignore = "=0.4.34"
rand = "=0.9.5"
reqwest = { version = "=0.12.28", default-features = false, features = ["json", "multipart", "rustls-tls"] }
serde = { version = "=1.0.229", features = ["derive"] }
serde_json = "=1.0.154"
similar = "=2.7.0"
sqlx = { version = "=0.8.6", default-features = false, features = ["runtime-tokio", "sqlite", "postgres", "chrono"] }
subtle = "=2.6.1"
tokio = { version = "=1.54.1", features = ["full"] }
tokio-tungstenite = { version = "=0.26.2", features = ["rustls-tls-webpki-roots"] }
tokio-util = "=0.7.20"
tower-http = { version = "=0.6.11", features = ["cors", "set-header"] }
tracing = "=0.1.44"
tracing-subscriber = { version = "=0.3.23", features = ["env-filter"] }
ulid = "=1.2.1"
