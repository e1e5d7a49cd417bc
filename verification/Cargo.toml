[package]
name = "chain_query"
version = "0.1.0"
edition = "2021"
publish = false

[dependencies]
bitcoin_hashes = "=0.3.2"
bitcoincore-rpc = "=0.7.0"
hyper = "=0.10.16"
jsonrpc = "=0.11.0"
serde_json = "=1.0.154"
