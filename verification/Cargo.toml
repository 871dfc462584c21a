[package]
name = "soda_unchained"
version = "0.1.0"
edition = "2021"
publish = false

[dependencies]
anchor-lang = "=0.29.0"
anchor-spl = "=0.29.0"
light-sdk = "=0.8.0"
light-hasher = "=1.1.1"
light-system-program = "=1.2.0"
light-compressed-token = { version = "=1.2.0", features = ["cpi"] }
account-compression = "=1.2.0"
solana-sdk = "=1.18.22"
borsh = "=0.10.4"
colored = "2"
configparser = "3"
eyre = "0.6"
log = "0.4"
tokio = { version = "1", features = ["macros", "rt-multi-thread"] }
