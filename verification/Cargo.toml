[package]
name = "keynesis"
version = "0.1.0"
edition = "2021"
publish = false

[dependencies]
cryptoxide = "*"
rand = "*"
rand_core = "*"
anyhow = "*"
tokio = { version = "*", default-features = false, features = ["io-util"] }
