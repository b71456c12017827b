[package]
name = "rust_axum"
version = "0.1.0"
edition = "2021"
publish = false

[dependencies]
anyhow = "1"
axum = "0.8"
bb8 = "*"
bcrypt = "*"
chrono = { version = "0.4", features = ["serde"] }
diesel = { version = "2", default-features = false, features = ["postgres_backend", "uuid", "chrono"] }
diesel-async = { version = "*", features = ["postgres", "bb8"] }
dotenvy = "0.15"
jsonwebtoken = "9"
serde = { version = "1", features = ["derive"] }
serde_json = { version = "1", features = ["raw_value"] }
thiserror = "2"
tokio = { version = "1", features = ["full"] }
tower-cookies = "0.11"
tower-http = { version = "0.6", features = ["trace"] }
tracing = "0.1"
tracing-subscriber = { version = "0.3", features = ["env-filter"] }
uuid = { version = "1", features = ["v7", "serde"] }
validator = { version = "0.20", features = ["derive"] }
