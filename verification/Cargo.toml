[package]
name = "supernovas"
version = "0.1.0"
edition = "2021"
publish = false

[dependencies]
hifitime = "4"
anise = { version = "*", default-features = false }
thiserror = "2"
