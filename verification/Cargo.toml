[package]
name = "wallhaven_cli"
version = "0.1.0"
edition = "2021"
publish = false

[dependencies]
clap = { version = "*", features = ["derive"] }
futures = "*"
indicatif = "*"
reqwest = { version = "*", default-features = false, features = ["rustls-tls", "stream"] }
serde = { version = "*", features = ["derive"] }
serde_json = "*"
tokio = { version = "*", features = ["macros", "rt-multi-thread", "fs", "io-util"] }
