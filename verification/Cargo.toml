[package]
name = "ff"
version = "0.1.0"
edition = "2021"
publish = false

[dependencies]
anyhow = "=1.0.104"
chrono = { version = "=0.4.45", features = ["serde"] }
env_logger = "=0.11.11"
futures-util = "=0.3.34"
glob = "=0.3.4"
graphql_client = { version = "=0.14.0", default-features = false }
indicatif = "=0.17.11"
log = "=0.4.35"
octocrab = "=0.42.1"
reqwest = { version = "=0.12.28", default-features = false, features = ["rustls-tls"] }
serde = { version = "=1.0.229", features = ["derive"] }
serde_json = "=1.0.154"
ssri2 = "=0.2.0"
tokio = { version = "=1.54.1", features = ["io-util", "macros", "process", "rt-multi-thread"] }
toml = "=0.8.23"
url = "=2.5.8"
