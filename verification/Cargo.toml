[package]
name = "deployer"
version = "0.1.0"
edition = "2021"
publish = false

[dependencies]
rand = "0.8"
anyhow = "1"
async-ssh2-tokio = "*"
clap = { version = "4", features = ["derive"] }
env_logger = "*"
handlebars = "*"
human-panic = "*"
log = "0.4"
serde = { version = "1", features = ["derive"] }
tempfile = "3"
tokio = { version = "1", features = ["full"] }
toml = "*"
url = { version = "2", features = ["serde"] }
