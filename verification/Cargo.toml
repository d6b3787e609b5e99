[package]
name = "casper_node_logic"
version = "0.1.0"
edition = "2021"
publish = false

[dependencies]
const-fnv1a-hash = "=1.1.0"
borsh = "=1.8.1"
base16 = "=0.2.1"
serde = { version = "=1.0.229", features = ["derive"] }
serde_json = "=1.0.154"
anyhow = "=1.0.104"
rand = "=0.8.8"
clap = { version = "=4.6.7", features = ["derive"] }
linked-hash-map = "0.5"
