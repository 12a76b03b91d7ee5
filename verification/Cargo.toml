[package]
name = "icrc2_ledger"
version = "0.1.0"
edition = "2021"
publish = false

[dependencies]
candid = "0.10"
ic-cdk = "*"
ic-cdk-macros = "*"
ic-cdk-timers = "*"
ic-stable-structures = "0.6"
icrc-ledger-types = "*"
num-bigint = "0.4"
serde = { version = "1", features = ["derive"] }
thiserror = "1"
