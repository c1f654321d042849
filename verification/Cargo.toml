[package]
name = "anchor_escrow"
version = "0.1.0"
edition = "2021"
publish = false

[dependencies]
anchor-lang = "=0.31.2"
anchor-spl = "=0.31.2"
tuktuk-program = "=0.4.1"
borsh = "=1.8.1"
bincode = "=1.3.3"
serde = "=1.0.229"
serde_json = "=1.0.151"
