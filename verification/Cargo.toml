[package]
name = "rivus"
version = "0.1.0"
edition = "2021"
publish = false

[dependencies]
chrono = "0.4"
rust_decimal = "1"
rand = "0.8"
serde = { version = "1", features = ["derive"] }
serde_json = "1"
sqlx = { version = "0.8", default-features = false, features = ["runtime-tokio", "mysql", "sqlite", "postgres", "chrono", "json"] }
tokio = { version = "1", features = ["sync", "rt", "macros"] }
quick-xml = { version = "0.37", features = ["serialize"] }
walkdir = "2"
anyhow = "1"
