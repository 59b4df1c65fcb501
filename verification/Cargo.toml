[package]
name = "winky"
version = "0.1.0"
edition = "2021"
publish = false

[dependencies]
anyhow = "*"
chrono = "*"
reqwest = { version = "*", default-features = false }
serde = { version = "*", features = ["derive"] }
serde_json = "*"
tokio = { version = "*", features = ["rt-multi-thread", "macros", "process", "sync", "time", "io-util", "fs"] }
url = "*"
urlencoding = "*"
uuid = { version = "*", features = ["v4"] }
