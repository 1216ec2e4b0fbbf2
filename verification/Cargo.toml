[package]
name = "dee_config_gen"
version = "0.1.0"
edition = "2021"
publish = false

[dependencies]
serde = { version = "1", features = ["derive"] }
serde_json = "1"
serde_yaml = "0.9"
shell-words = "1"
anyhow = "1"
clap = { version = "4", features = ["derive"] }
thiserror = "1"
