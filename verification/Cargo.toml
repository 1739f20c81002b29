[package]
name = "block_metrics"
version = "0.1.0"
edition = "2021"
publish = false

[dependencies]
bitcoincore-rpc = "*"
chrono = { version = "0.4", default-features = false }
dotenv = "0.15"
