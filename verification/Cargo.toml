[package]
name = "mqtt"
version = "0.1.0"
edition = "2021"
publish = false

[dependencies]
bytes = "1"
rand = "0.8"
tokio = { version = "1", features = ["net", "io-util", "sync", "rt-multi-thread", "macros", "time"] }
log = "0.4"
env_logger = "0.11"
async-trait = "0.1"
