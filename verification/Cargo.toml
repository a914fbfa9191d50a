[package]
name = "k_aiti"
version = "0.1.0"
edition = "2021"
publish = false

[dependencies]
async-openai = { version = "=0.42.1", features = ["chat-completion"] }
clap = "=4.6.7"
crossterm = "=0.29.0"
dirs = "=7.0.0"
futures = "=0.3.34"
serde = { version = "=1.0.229", features = ["derive"] }
serde_json = "=1.0.151"
tokio = { version = "=1.53.2", features = ["rt-multi-thread", "macros"] }
