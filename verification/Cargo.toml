[package]
name = "sender"
version = "0.1.0"
edition = "2021"
publish = false

[dependencies]
clap = { version = "4.5", default-features = false, features = ["std", "help", "usage", "derive"] }
env_logger = { version = "0.11", default-features = false }
frame-system = "=40.2.0"
futures = { version = "0.3", default-features = false, features = ["std"] }
log = "0.4"
pallet-balances = "=41.1.1"
parity-scale-codec = { version = "=3.7.5", features = ["derive"] }
tokio = { version = "1", features = ["rt-multi-thread", "time", "sync"] }
url = "=2.5.8"
