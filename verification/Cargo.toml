[package]
name = "create_gh_repo"
version = "0.1.0"
edition = "2021"
publish = false

[dependencies]
clap = "=4.6.7"
env_logger = "=0.11.11"
git2 = { version = "=0.21.0", features = ["https"] }
log = "=0.4.34"
notify = "=8.2.1"
reqwest = { version = "=0.12.28", features = ["blocking", "json"] }
rpassword = "=7.5.4"
serde = { version = "=1.0.229", features = ["derive"] }
serde_json = "=1.0.154"
tempfile = "=3.27.0"
url = "=2.5.8"
