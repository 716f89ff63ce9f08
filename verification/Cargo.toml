[package]
name = "parallel_fetch"
version = "0.1.0"
edition = "2021"
publish = false

[dependencies]
hex = "0.4"
md-5 = "*"
reqwest = { version = "*", default-features = false, features = ["rustls-tls"] }
tokio = { version = "*", features = ["rt-multi-thread", "macros", "fs", "io-util"] }
futures-util = "*"
clap = "*"
