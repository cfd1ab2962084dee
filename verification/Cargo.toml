[package]
name = "dig_bot"
version = "0.1.0"
edition = "2021"
publish = false

[dependencies]
rand = "=0.10.3"
anyhow = "*"
clap = { version = "*", features = ["derive"] }
derive-enum-all-values = "*"
poise = "0.6"
serenity = "0.12"
serde = { version = "*", features = ["derive"] }
tokio = { version = "*", features = ["macros", "rt-multi-thread"] }
