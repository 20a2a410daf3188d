[package]
name = "netowiru"
version = "0.1.0"
edition = "2021"
publish = false

[dependencies]
tokio = { version = "*", features = ["rt-multi-thread", "net", "io-util", "macros", "time"] }
clap = { version = "*", features = ["derive"] }
yaml-rust2 = "*"
