[package]
name = "cash_relay"
version = "0.1.0"
edition = "2021"
publish = false

[dependencies]
actix-cors = "0.6"
actix-files = "0.6"
actix-rt = "2"
actix-web = "4"
async-json-rpc = "0.3"
bitcoin = "=0.26.2"
bitcoin_hashes = "=0.9.7"
bitcoincash-addr = "0.5"
bytes = "1"
cashweb = "0.1.0-alpha.10"
clap = "4"
config = "0.13"
dirs = "5"
env_logger = "0.10"
log = "0.4"
rocksdb = "0.22"
secp256k1 = "=0.20.3"
serde = { version = "1", features = ["derive"] }
sha2 = "=0.9.9"
warp = "0.3"
