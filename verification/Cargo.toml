[package]
name = "rustacean_gpt"
version = "0.1.0"
edition = "2021"
publish = false

[dependencies]
anyhow = "1"
async-openai = "0.10"
async-trait = "0.1"
inquire = "0.6"
reqwest = { version = "0.11", features = ["json"] }
serde = { version = "1", features = ["derive"] }
serde_json = "1"
termion = "2"
tiktoken-rs = "*"
tokio = { version = "1", features = ["full"] }
