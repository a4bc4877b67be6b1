[package]
name = "shinkai_tools_runner"
version = "0.1.0"
edition = "2021"
publish = false

[dependencies]
anyhow = "1"
futures = "0.3"
log = "0.4"
regex = "1"
serde_json = "1"
tokio = { version = "1", features = ["io-util", "process", "rt-multi-thread", "sync", "time"] }
toml_edit = "0.22"
