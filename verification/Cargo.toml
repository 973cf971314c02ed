[package]
name = "ask_ai"
version = "0.1.0"
edition = "2021"
publish = false

[dependencies]
clap = { version = "4", features = ["cargo"] }
itertools = "0.10"
keyring = "2"
openai = "*"
tokio = { version = "1", features = ["macros", "rt-multi-thread"] }
