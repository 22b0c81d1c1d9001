[package]
name = "aigcw"
version = "0.1.0"
edition = "2021"
publish = false

[dependencies]
anyhow = "=1.0.104"
clap = { version = "=4.6.7", features = ["derive"] }
config = { version = "=0.15.27", default-features = false, features = ["toml"] }
dialoguer = { version = "=0.12.0", default-features = false }
directories = "=6.0.0"
dirs = "=6.0.0"
reqwest = { version = "=0.12.28", features = ["blocking", "json"] }
rllm = { version = "=1.1.0", features = ["openai", "anthropic", "ollama", "deepseek", "xai", "phind"] }
serde = { version = "=1.0.229", features = ["derive"] }
serde_json = "=1.0.154"
tokio = { version = "=1.54.1", features = ["macros", "rt-multi-thread"] }
toml = "=1.1.8"
