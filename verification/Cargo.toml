[package]
name = "medbook_core"
version = "0.1.0"
edition = "2021"
publish = false

[dependencies]
anyhow = "=1.0.104"
axum = "=0.8.9"
chrono = "=0.4.45"
diesel = { version = "=2.3.14", default-features = false, features = ["postgres_backend", "chrono"] }
diesel-async = { version = "=0.9.2", features = ["postgres", "bb8", "async-connection-wrapper"] }
diesel_migrations = "=2.3.2"
dotenvy = "=0.15.7"
futures = "=0.3.34"
futures-lite = "=2.6.1"
jsonwebtoken = "=11.1.0"
lapin = "=4.12.0"
reqwest = { version = "=0.13.5", default-features = false }
serde = { version = "=1.0.229", features = ["derive"] }
serde_json = "=1.0.151"
thiserror = "=2.0.21"
tokio = { version = "=1.53.2", features = ["full"] }
tower-http = { version = "=0.7.1", features = ["cors", "limit", "timeout", "trace"] }
tracing = "=0.1.44"
tracing-subscriber = "=0.3.23"
utoipa = "=6.0.0"
utoipa-swagger-ui = "=10.0.1"
