[package]
name = "aade_validator"
version = "0.1.0"
edition = "2021"
publish = false

[dependencies]
rust_decimal = "1"
chrono = "0.4"
serde = { version = "1", features = ["derive"] }
serde_json = "1"
serde_yaml = "0.9"
quick-xml = { version = "*", features = ["serialize"] }
axum = { version = "*", features = ["multipart"] }
tokio = { version = "1", features = ["macros", "rt-multi-thread", "net"] }
tower-http = { version = "*", features = ["trace", "cors"] }
sqlx = { version = "*", default-features = false, features = ["postgres", "runtime-tokio", "json", "migrate"] }
tracing = "0.1"
tracing-subscriber = "0.3"
dotenvy = "*"
anyhow = "1"
thiserror = "*"
