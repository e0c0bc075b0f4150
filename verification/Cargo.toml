[package]
name = "confy"
version = "0.1.0"
edition = "2021"
publish = false

[dependencies]
directories-next = "2"
serde = "1"
thiserror = "1"
toml = "0.5"
