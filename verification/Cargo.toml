[package]
name = "user_repo"
version = "0.1.0"
edition = "2021"
publish = false

[dependencies]
mongodb = { version = "=2.8.2", default-features = false, features = ["sync"] }
dotenv = "=0.15.0"
serde = { version = "=1.0.229", features = ["derive"] }
