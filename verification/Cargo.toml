[package]
name = "r503"
version = "0.1.0"
edition = "2021"
publish = false

[dependencies]
embedded-io-async = "0.6"
embedded-io-adapters = { version = "0.6", features = ["futures-03"] }
futures = "0.3"
smol = "2"
clap = { version = "4", features = ["derive"] }
serialport = { version = "4", default-features = false }
