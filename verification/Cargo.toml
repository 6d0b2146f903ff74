[package]
name = "webringer"
version = "0.1.0"
edition = "2021"
publish = false

[dependencies]
argon2 = { version = "=0.5.3", features = ["std"] }
askama = "=0.16.1"
axum = "=0.8.9"
axum-login = "=0.18.0"
axum-messages = "=0.8.0"
clap = { version = "=4.6.7", features = ["derive"] }
dotenvy = "=0.15.7"
hex = "=0.4.3"
mime_guess = "=2.0.5"
rust-embed = "=8.13.0"
serde = { version = "=1.0.229", features = ["derive"] }
sha2 = "=0.10.9"
sqlx = { version = "=0.8.6", default-features = false, features = ["sqlite", "runtime-tokio"] }
thiserror = "=2.0.21"
tokio = { version = "=1.54.1", features = ["full"] }
tower-sessions = { version = "=0.14.0", features = ["memory-store"] }
tracing = "=0.1.44"
tracing-subscriber = "=0.3.23"
ureq = "=3.5.0"
