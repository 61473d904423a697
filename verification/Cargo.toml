[package]
name = "staking_jobs"
version = "0.1.0"
edition = "2021"
publish = false

[dependencies]
anyhow = "=1.0.104"
async-trait = "=0.1.92"
candid = "=0.10.39"
clap = { version = "=4.6.7", features = ["derive", "env"] }
crc32fast = "=1.5.3"
crossbeam = "=0.8.5"
ic-agent = "=0.39.3"
k256 = "=0.13.4"
rand = "=0.8.8"
serde = { version = "=1.0.229", features = ["derive"] }
tokio = { version = "=1.54.1", features = ["rt-multi-thread", "macros"] }
