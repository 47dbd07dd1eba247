[package]
name = "earningsfeed_cli"
version = "0.1.0"
edition = "2021"
publish = false

[dependencies]
earningsfeed = "*"
confy = "*"
clap = { version = "*", features = ["derive"] }
serde = { version = "*", features = ["derive"] }
serde_json = "*"
tokio = { version = "*", features = ["rt-multi-thread", "macros"] }
