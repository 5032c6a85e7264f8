[package]
name = "braiinspool_bot"
version = "0.1.0"
edition = "2021"
publish = false

[dependencies]
braiinspool = "0.1"
chrono = "0.4"
clap = { version = "3", features = ["derive"] }
dirs = "4"
log = "0.4"
matrix-sdk = "0.5"
serde = { version = "1", features = ["derive"] }
tokio = { version = "1", features = ["rt-multi-thread", "macros"] }
toml = "0.5"
