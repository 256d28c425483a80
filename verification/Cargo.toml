[package]
name = "transfer_fee_collector"
version = "0.1.0"
edition = "2021"
publish = false

[dependencies]
anchor-lang = "0.28"
anchor-spl = { version = "0.28", default-features = false, features = ["token"] }
