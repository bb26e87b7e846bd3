[package]
name = "snip20_ics20"
version = "0.1.0"
edition = "2021"
publish = false

[dependencies]
secret-cosmwasm-std = { version = "*", features = ["stargate", "ibc3"] }
secret-toolkit = "*"
serde = { version = "*", features = ["derive"] }
schemars = "*"
