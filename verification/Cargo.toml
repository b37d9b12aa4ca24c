[package]
name = "ssh_git_fw"
version = "0.1.0"
edition = "2021"
publish = false

[dependencies]
anyhow = "1"
async-channel = "2"
dashmap = "6"
env_logger = "*"
fast-socks5 = "*"
gtk4 = "*"
log = "0.4"
russh = { version = "*", default-features = false, features = ["flate2", "ring", "rsa"] }
serde = { version = "1", features = ["derive"] }
serde_json = "1"
shellexpand = "3"
shlex = "1"
ssh-key = "0.6"
structopt = "0.3"
tokio = { version = "1", features = ["full"] }
toml = "*"
