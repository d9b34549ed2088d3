[package]
name = "net_sentinel"
version = "0.1.0"
edition = "2021"
publish = false

[dependencies]
crossbeam-channel = "=0.5.17"
crossterm = "=0.29.0"
csv = "=1.4.0"
env_logger = "=0.11.11"
etherparse = "=0.13.0"
extended-isolation-forest = { version = "=0.2.3", features = ["serde"] }
log = "=0.4.34"
pcap = "=2.5.0"
ratatui = "=0.30.2"
serde = { version = "=1.0.229", features = ["derive"] }
serde_json = "=1.0.154"
