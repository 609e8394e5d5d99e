[package]
name = "dao_bounty_board"
version = "0.1.0"
edition = "2021"
publish = false

[dependencies]
anchor-lang = "*"
solana-program = "*"
