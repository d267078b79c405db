[package]
name = "flash_mint"
version = "0.1.0"
edition = "2021"
publish = false

[dependencies]
cosmwasm-bignumber = "=2.2.0"
cosmwasm-std = "=1.0.1"
cw20 = "=0.14.0"
serde = { version = "=1.0.229", features = ["derive"] }
