[package]
name = "wikify_web"
version = "0.1.0"
edition = "2021"
publish = false

[dependencies]
sha2 = "=0.10.9"
uuid = { version = "=1.29.0", features = ["v4"] }
chrono = { version = "=0.4.45", features = ["serde"] }
argon2 = { version = "=0.5.3", features = ["std"] }
regex = "=1.13.1"
serde_json = "=1.0.154"
serde_yaml = "=0.9.34"
utoipa = { version = "=5.5.0", features = ["chrono"] }
serde = { version = "=1.0.229", features = ["derive"] }
jsonwebtoken = "=9.3.1"
axum = { version = "=0.8.9", features = ["ws"] }
tokio = { version = "=1.54.1", features = ["rt-multi-thread", "macros", "net", "sync", "time"] }
tower-http = { version = "=0.6.11", features = ["cors", "trace", "fs"] }
tracing = "=0.1.44"
tracing-subscriber = { version = "=0.3.23", features = ["env-filter"] }
sqlx = { version = "=0.8.6", default-features = false, features = ["sqlite", "runtime-tokio"] }
clap = { version = "=4.6.7", features = ["derive"] }
dotenvy = "=0.15.7"
dirs = "=5.0.1"
thiserror = "=1.0.69"
async-trait = "=0.1.92"
