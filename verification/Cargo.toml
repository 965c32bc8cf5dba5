[package]
name = "gpt_cli"
version = "0.1.1"
edition = "2021"
publish = false

[dependencies]
clap = "3.2"
console = "0.15"
crossterm = "0.27"
reqwest = { version = "0.11", features = ["json"] }
serde = { version = "1", features = ["derive"] }
serde_json = "1"
tokio = { version = "1", features = ["macros", "rt-multi-thread"] }
