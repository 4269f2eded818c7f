[package]
name = "linkportal_contract_solana"
version = "0.1.0"
edition = "2021"
publish = false

[dependencies]
anchor-lang = "=0.32.2"
