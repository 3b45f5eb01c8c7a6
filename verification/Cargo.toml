[package]
name = "ssh_transfer"
version = "0.1.0"
edition = "2021"
publish = false

[dependencies]
anyhow = "1"
clap = { version = "4", features = ["derive"] }
crossbeam-channel = "0.5"
dialoguer = "0.11"
env_logger = "0.11"
home = "0.5"
indicatif = "0.17"
md5 = "0.7"
once_cell = "1"
serde = { version = "1", features = ["derive"] }
serde_json = "1"
ssh2 = "0.9"
thiserror = "1"
tokio = { version = "1", features = ["macros", "rt-multi-thread"] }
