[package]
name = "luro"
version = "0.1.0"
edition = "2021"
publish = false

[dependencies]
base64 = "=0.21.7"
rand = "=0.8.8"
fastrand = "=2.5.0"
twilight-model = "=0.16.0"
twilight-util = { version = "=0.16.0", features = ["snowflake", "builder"] }
twilight-interactions = "0.16"
serde = { version = "=1.0.229", features = ["derive"] }
serde_json = "=1.0.154"
toml = "=0.8.23"
memory-stats = "=1.2.0"
git2 = { version = "=0.18.3", default-features = false }
tracing = "=0.1.44"
anyhow = "=1.0.104"
