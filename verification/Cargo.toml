[package]
name = "llama_chat"
version = "0.1.0"
edition = "2021"
publish = false

[dependencies]
encoding_rs = "=0.8.42"
llama-cpp-2 = "=0.1.159"
anyhow = "=1.0.104"
clap = { version = "=4.6.7", features = ["derive"] }
crossterm = "=0.28.1"
ratatui = "=0.28.1"
tui-textarea = "=0.6.1"
toml = "=1.1.7"
serde = { version = "=1.0.229", features = ["derive"] }
env_logger = "=0.11.11"
log = "=0.4.34"
