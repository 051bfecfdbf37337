[package]
name = "blasebot"
version = "0.1.0"
edition = "2021"
publish = false

[dependencies]
edit-distance = "*"
percent-encoding = "*"
tokio = { version = "*", features = ["rt-multi-thread", "macros", "sync"] }
futures = "*"
anyhow = "*"
