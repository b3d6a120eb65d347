[package]
name = "shop_bridge"
version = "0.1.0"
edition = "2021"
publish = false

[dependencies]
solana-sdk = "1.18"
base58 = "0.2.0"
actix-web = { version = "4", default-features = false, features = ["macros"] }
tokio = { version = "1", features = ["macros", "rt-multi-thread", "time"] }
serde = { version = "1", features = ["derive"] }
log = "0.4"
env_logger = "0.10"
dotenv = "0.15"
