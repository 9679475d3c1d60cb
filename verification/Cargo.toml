[package]
name = "maigret"
version = "0.1.0"
edition = "2021"
publish = false

[dependencies]
anyhow = "*"
clap = { version = "*", features = ["derive"] }
colored = "*"
fancy-regex = "*"
fastrand = "*"
indicatif = "*"
reqwest = { version = "*", default-features = false, features = ["http2", "socks", "json"] }
serde = { version = "*", features = ["derive"] }
serde_json = "*"
tokio = { version = "*", features = ["macros", "rt-multi-thread", "time", "sync", "fs", "io-util"] }
tracing = "*"
tracing-subscriber = { version = "*", features = ["env-filter"] }
