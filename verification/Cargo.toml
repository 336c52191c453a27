[package]
name = "thumbs_cache"
version = "0.1.0"
edition = "2021"
publish = false

[dependencies]
axum = "0.8"
chrono = "0.4"
dotenv = "0.15"
futures = "0.3"
r2d2 = "0.8"
redis = { version = "*", features = ["r2d2"] }
reqwest = "0.12"
rust-s3 = "*"
tokio = { version = "1", features = ["full"] }
tower-http = { version = "0.6", features = ["cors"] }

[dev-dependencies]
regex = "1"
