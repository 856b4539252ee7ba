[package]
name = "quotebot"
version = "0.1.0"
edition = "2021"
publish = false

[dependencies]
poise = "*"
tokio = { version = "*", features = ["macros", "rt-multi-thread"] }
