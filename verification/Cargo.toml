[package]
name = "ledger_import"
version = "0.1.0"
edition = "2021"
publish = false

[dependencies]
chardet = "0.2"
chrono = "0.4"
encoding = "0.2"
