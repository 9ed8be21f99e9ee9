[package]
name = "crypto_trading_bot"
version = "0.1.0"
edition = "2021"
publish = false

[dependencies]
anyhow = "1"
binance = "*"
config = "*"
csv = "1"
ctrlc = "3"
env_logger = "*"
lightgbm = "*"
log = "0.4"
serde = { version = "1", features = ["derive"] }
serde_json = "1"
