[package]
name = "race_scheduler"
version = "0.1.0"
edition = "2021"
publish = false

[dependencies]
chrono = "0.4"
chrono-tz = "0.5"
custom_error = "1.9"
derive_builder = "0.10"
dotenv = "0.15"
env_logger = "0.8"
futures = "0.3"
log = "0.4"
sqlx = { version = "0.5", default-features = false, features = ["runtime-tokio-rustls", "sqlite", "macros"] }
tokio = { version = "1", features = ["rt-multi-thread", "macros", "time", "sync"] }
twilight-cache-inmemory = "0.4"
twilight-command-parser = "0.4"
twilight-gateway = "0.4"
twilight-http = "0.4"
twilight-model = "0.4"
