[package]
name = "rimmich"
version = "0.1.0"
edition = "2021"
publish = false

[dependencies]
infer = "*"
chrono = "0.4"
tokio = { version = "1", features = ["rt-multi-thread", "macros", "sync", "fs", "io-util"] }
tokio-util = { version = "0.7", features = ["codec", "io"] }
reqwest = { version = "0.12", default-features = false, features = ["multipart", "stream"] }
serde = { version = "1", features = ["derive"] }
toml = "*"
dirs = "*"
