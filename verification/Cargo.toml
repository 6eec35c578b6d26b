[package]
name = "dev-cli"
version = "0.3.2"
edition = "2021"
publish = false

[dependencies]
async-trait = "0.1"
clap = "4"
dirs = "5"
futures = "0.3"
reqwest = { version = "0.11", features = ["json"] }
serde = { version = "1", features = ["derive"] }
serde_yaml = "0.9"
textwrap = "0.16"
tokio = { version = "1", features = ["full"] }
