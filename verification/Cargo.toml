[package]
name = "kuaip2p"
version = "0.1.0"
edition = "2021"
publish = false

[dependencies]
uuid = { version = "=1.27.0", features = ["v4"] }
tokio = { version = "=1.53.2", features = ["rt-multi-thread", "net", "io-util", "sync", "time", "fs", "macros"] }
