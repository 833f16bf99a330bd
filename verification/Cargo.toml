[package]
name = "windmill_variables"
version = "0.1.0"
edition = "2021"
publish = false

[dependencies]
sql-builder = "=3.1.1"
serde = { version = "1", features = ["derive"] }
serde_json = "1"
chrono = "0.4"
axum = "0.7"
hyper = "1"
lazy_static = "1"
sqlx = { version = "0.8", default-features = false, features = ["postgres", "runtime-tokio", "macros", "json", "chrono"] }
