[package]
name = "smartwallet"
version = "0.1.0"
edition = "2021"
publish = false

[dependencies]
cosmwasm-std = "0.16"
moneymarket = "*"
serde = { version = "1", features = ["derive"] }
