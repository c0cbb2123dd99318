[package]
name = "ipeek"
version = "0.1.0"
edition = "2021"
publish = false

[dependencies]
serde = { version = "1", features = ["derive"] }
serde_json = "1"
serde_yml = "*"
rmp-serde = "1"
csv = "1"
actix-web = "4"
tokio = { version = "1", features = ["rt-multi-thread", "time", "macros"] }
trust-dns-resolver = "0.23"
maxminddb = "*"
comfy-table = "7"
env_logger = "0.11"
config = "*"
