[package]
name = "ddos_protection_task"
version = "0.1.0"
edition = "2021"
publish = false

[dependencies]
anyhow = "1"
aya = "0.11"
aya-log = "0.1"
bytes = "1"
dashmap = "5"
env_logger = "0.10"
log = "0.4"
network-types = "0.0"
rand = "0.8"
sha2 = "0.10"
thiserror = "1"
tokio = { version = "1", features = ["macros", "rt-multi-thread", "net", "signal", "io-util"] }
