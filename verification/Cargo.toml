[package]
name = "metrics_agent"
version = "0.1.0"
edition = "2021"
publish = false

[dependencies]
actix-web = { version = "=4.18.1", features = ["openssl"] }
env_logger = "=0.11.11"
log = "=0.4.34"
openssl = "=0.10.81"
psutil = { version = "=3.3.0", default-features = false, features = ["cpu", "memory"] }
serde = { version = "=1.0.229", features = ["derive"] }
toml = "*"
