[package]
name = "solana_pay_channel_multisig"
version = "0.1.0"
edition = "2021"
publish = false

[dependencies]
anchor-lang = "*"
