[package]
name = "codechain-miner"
version = "0.1.0"
edition = "2021"
publish = false

[dependencies]
byteorder = "1"
bytes = "0.4"
clap = "2"
cuckoo = "*"
env_logger = "0.5"
ethereum-types = "0.4"
futures = "0.1"
hyper = "0.12"
log = "0.4"
rlp = "0.2"
rust-crypto = "0.2"
rustc-hex = "1"
serde = { version = "1", features = ["derive"] }
serde_json = "1"
tokio = "0.1"
tokio-executor = "0.1"
