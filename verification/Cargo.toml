[package]
name = "sqlc-generate-typescript-plugin"
version = "0.1.0"
edition = "2021"
publish = false

[dependencies]
miniserde = "0.1"
prost = "*"
regex-lite = "0.1"
thiserror = "*"
