[package]
name = "group_member_approval"
version = "1.0.0"
edition = "2021"
publish = false

[dependencies]
cosmwasm-std = "2"
cw-storage-plus = "2"
provwasm-std = "2"
schemars = "0.8"
semver = "1"
serde = { version = "1", features = ["derive"] }
thiserror = "1"
