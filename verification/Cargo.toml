[package]
name = "konsol"
version = "0.1.0"
edition = "2021"
publish = false

[dependencies]
uuid = { version = "=1.29.0", features = ["v4"] }
chrono = "=0.4.45"
serde = { version = "=1.0.229", features = ["derive"] }
serde_json = "=1.0.154"
cookie = { version = "=0.18.2", features = ["private", "percent-encode"] }
tokio = { version = "=1.54.1", features = ["rt-multi-thread", "macros", "fs"] }
log = "=0.4.35"
env_logger = "=0.11.11"
dotenvy = "=0.15.7"
dotenv = "=0.15.0"
actix-web = "=4.18.1"
diesel = { version = "=2.3.14", features = ["sqlite", "r2d2", "chrono"] }
diesel_migrations = "=2.3.2"
