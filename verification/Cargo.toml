[package]
name = "hu"
version = "0.1.0"
edition = "2021"
publish = false

[dependencies]
regex = "1"
base64 = "0.22"
chrono = "0.4"
crossterm = "0.28"
comfy-table = "7"
serde = { version = "1", features = ["derive"] }
serde_json = "1"
serde_yaml = "0.9"
toml = "0.8"
clap = { version = "4", features = ["derive"] }
anyhow = "1"
dirs = "5"
colored = "2"
tokio = { version = "1", features = ["macros", "rt-multi-thread", "time", "net", "sync"] }
terminal_size = "0.4"
ctrlc = "3"
async-trait = "0.1"
reqwest = "0.12"
axum = "0.7"
octocrab = "*"
aws-config = "1"
aws-sdk-sts = "1"
aws-sdk-eks = "1"
aws-sdk-codepipeline = "1"
