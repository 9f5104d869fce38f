[package]
name = "transaction_rollback"
version = "0.1.0"
edition = "2021"
publish = false

[dependencies]
try-drop = "=0.2.0"
