[package]
name = "reddit_notifier"
version = "0.1.0"
edition = "2021"
publish = false

[dependencies]
anyhow = "*"
futures = "*"
htmlescape = "*"
reddit-api = "*"
reqwest = { version = "*", default-features = false, features = ["rustls-tls"] }
serde = { version = "*", features = ["derive"] }
serde_json = "*"
serde_yaml = "*"
time = { version = "*", features = ["parsing"] }
tokio = { version = "*", features = ["rt-multi-thread", "macros", "time", "fs", "io-util"] }
