[package]
name = "omen_hub"
version = "0.1.0"
edition = "2021"
publish = false

[dependencies]
comfy-table = "=7.2.2"
serde = { version = "=1.0.229", features = ["derive"] }
serde_json = "=1.0.154"
clap = { version = "=4.6.7", features = ["derive"] }
tokio = { version = "=1.54.1", features = ["rt-multi-thread", "macros", "fs", "time", "sync", "signal", "process"] }
zbus = "=4.4.0"
anyhow = "=1.0.104"
log = "=0.4.35"
env_logger = "=0.11.11"
glob = "=0.3.4"
libc = "=0.2.191"
futures = "=0.3.34"
ksni = "0.2"
glib = "0.18"
