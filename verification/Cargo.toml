[package]
name = "ai_cli"
version = "0.1.0"
edition = "2021"
publish = false

[dependencies]
serde_json = "*"
toml_edit = "*"
anyhow = "*"
clap = { version = "*", features = ["derive"] }
colored = "*"
dirs = "*"
futures = "*"
indicatif = "*"
reqwest = { version = "*", default-features = false }
tempfile = "*"
tokio = { version = "*", features = ["macros", "rt-multi-thread"] }
