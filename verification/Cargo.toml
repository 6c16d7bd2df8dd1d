[package]
name = "rivet-head-api"
version = "0.1.0"
edition = "2021"
publish = false

[dependencies]
actix-web = { version = "4", default-features = false, features = ["macros"] }
anyhow = "1"
chrono = { version = "0.4", features = ["serde"] }
garde = { version = "*", default-features = false }
serde = { version = "1", features = ["derive"] }
shuttle-actix-web = "0.42.0"
shuttle-runtime = "0.42.0"
shuttle-secrets = "0.42.0"
shuttle-shared-db = { version = "0.42.0", features = ["postgres", "sqlx"] }
sqlx = { version = "0.7", default-features = false, features = ["postgres", "chrono", "uuid"] }
tracing = "0.1"
tracing-actix-web = "0.7"
uuid = { version = "1", features = ["v4", "serde"] }
