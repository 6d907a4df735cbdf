[package]
name = "cketh_starter_backend"
version = "0.1.0"
edition = "2021"
publish = false

[dependencies]
b3_utils = { version = "=0.13.1", features = ["ledger"] }
candid = "=0.10.10"
ic-cdk = "=0.17.2"
serde = "=1.0.229"
