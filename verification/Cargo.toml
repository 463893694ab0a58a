[package]
name = "yaulta"
version = "0.1.0"
edition = "2021"
publish = false

[dependencies]
etherparse = "0.13"
chrono = "0.4"
pcap = "*"
async-nats = "*"
bytes = "1"
serde = { version = "1", features = ["derive"] }
serde_json = "1"
tokio = { version = "1", features = ["macros", "rt-multi-thread"] }
clap = { version = "4", features = ["derive"] }
