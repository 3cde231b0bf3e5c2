[package]
name = "mlchat"
version = "0.1.0"
edition = "2021"
publish = false

[dependencies]
rust-bert = "*"
serenity = "0.11"
tokio = { version = "1", features = ["macros", "rt-multi-thread", "sync"] }
