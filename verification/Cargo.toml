[package]
name = "rpc"
version = "0.1.0"
edition = "2021"
publish = false

[dependencies]
anyhow = "=1.0.104"
async-std = { version = "=1.13.2", features = ["attributes"] }
lapin = { version = "=1.10.0", default-features = false }
structopt = "=0.3.26"
strum = { version = "0.20", features = ["derive"] }
tracing = "=0.1.44"
tracing-subscriber = "=0.2.25"
uuid = { version = "=0.8.2", features = ["v4"] }
