[package]
name = "evm_contract"
version = "0.1.0"
edition = "2021"
publish = false

[dependencies]
ethcontract-common = "=0.25.8"
web3 = { version = "=0.19.0", default-features = false }
