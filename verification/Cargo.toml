[package]
name = "badge_protocol"
version = "0.1.0"
edition = "2021"
publish = false

[dependencies]
bluest = "*"
eyre = "*"
futures = "*"
tokio = { version = "*", features = ["rt-multi-thread", "macros", "time"] }
uuid = "*"
