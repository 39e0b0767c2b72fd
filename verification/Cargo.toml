[package]
name = "spl_token_cli"
version = "1.0.0"
edition = "2021"
publish = false

[dependencies]
solana-sdk = "=2.1.21"
spl-token = "7"
spl-associated-token-account = "6"
clap = { version = "4", features = ["derive"] }
colored = "2"
dotenv = "0.15"
tabled = "0.15"
tokio = { version = "1", features = ["macros", "rt-multi-thread"] }
