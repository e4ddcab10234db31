[package]
name = "ethpipe"
version = "0.1.0"
edition = "2021"
publish = false

[dependencies]
web3 = { version = "*", default-features = false, features = ["http"] }
postgres = "*"
tokio = { version = "*", features = ["rt-multi-thread", "macros"] }
