[package]
name = "rarible_marketplace"
version = "0.1.0"
edition = "2021"
publish = false

[dependencies]
solana-program = "1.18"
mpl-token-metadata = "4.1"
spl-token-2022 = { version = "3.0", features = ["no-entrypoint"] }
spl-token-metadata-interface = "0.3"
spl-transfer-hook-interface = "0.6"
spl-tlv-account-resolution = "0.6"
borsh = "0.10"
