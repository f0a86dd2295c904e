[package]
name = "conference"
version = "0.1.0"
edition = "2021"
publish = false

[dependencies]
rust_decimal = "=1.43.0"
chrono = { version = "=0.4.45", features = ["serde"] }
argon2 = { version = "=0.5.3", features = ["std"] }
validator = { version = "=0.20.0", features = ["derive"] }
jsonwebtoken = "=9.3.1"
serde = { version = "=1.0.229", features = ["derive"] }
sqlx = { version = "=0.8.6", default-features = false, features = ["mysql", "runtime-tokio", "chrono", "rust_decimal", "macros"] }
axum = "=0.8.9"
async-trait = "=0.1.92"
anyhow = "=1.0.104"
thiserror = "=2.0.21"
tracing = "=0.1.44"
