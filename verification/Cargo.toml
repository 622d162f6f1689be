[package]
name = "authstream"
version = "0.1.0"
edition = "2021"
publish = false

[dependencies]
chrono = { version = "=0.4.45", features = ["serde"] }
serde = { version = "=1.0.229", features = ["derive"] }
sqlx = { version = "=0.8.6", default-features = false, features = ["postgres", "runtime-tokio", "migrate", "derive", "chrono", "uuid"] }
utoipa = { version = "=6.0.0", features = ["chrono", "uuid"] }
uuid = { version = "=1.27.0", features = ["v4", "serde"] }
validator = { version = "=0.20.0", features = ["derive"] }
