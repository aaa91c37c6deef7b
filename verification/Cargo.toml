[package]
name = "monster"
version = "0.1.0"
edition = "2021"
publish = false

[dependencies]
clap = { version = "*", features = ["derive"] }
serde_json = "*"
web3 = { version = "*", default-features = false, features = ["http", "ws-tokio"] }
tokio = { version = "*", features = ["rt", "macros", "time"] }
