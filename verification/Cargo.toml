[package]
name = "taipower"
version = "0.1.0"
edition = "2021"
publish = false

[dependencies]
chrono = "0.4"
regex = "1"
serde = { version = "1", features = ["derive"] }
serde_json = "1"
reqwest = { version = "0.12", default-features = false, features = ["json", "rustls-tls"] }
tokio = { version = "1", features = ["macros", "rt-multi-thread"] }
sea-orm = { version = "1", default-features = false, features = ["sqlx-postgres", "runtime-tokio-rustls"] }
dotenv = "0.15"
env_logger = "0.11"
