[package]
name = "rust-psql-crud-api"
version = "0.1.0"
edition = "2021"
publish = false

[dependencies]
postgres = "=0.19.14"
rand = "=0.8.8"
serde_json = "=1.0.154"
