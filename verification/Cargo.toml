[package]
name = "kwaak"
version = "0.1.0"
edition = "2021"
publish = false

[dependencies]
anyhow = "=1.0.104"
async-openai = "=0.27.2"
crossterm = "=0.28.1"
darling = "=0.20.10"
ratatui = "=0.29.0"
swiftide = { version = "=0.19.0", default-features = false, features = ["tree-sitter", "openai", "ollama"] }
tokio = { version = "=1.54.1", features = ["rt-multi-thread", "macros", "sync", "time"] }
