[package]
name = "uploader"
version = "0.1.0"
edition = "2021"
publish = false

[dependencies]
dotenv = "*"
env_logger = "*"
log = "*"
reqwest = { version = "*", default-features = false, features = ["json", "rustls-tls"] }
serde = { version = "*", features = ["derive"] }
tokio = { version = "*", features = ["rt-multi-thread", "macros", "time"] }
