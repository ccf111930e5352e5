[package]
name = "netpod_sqlite"
version = "0.1.0"
edition = "2021"
publish = false

[dependencies]
anyhow = "1"
bendy = "0.3"
rusqlite = "*"
serde_json = "1"
