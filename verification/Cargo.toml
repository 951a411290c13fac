[package]
name = "robbb"
version = "0.1.0"
edition = "2021"
publish = false

[dependencies]
humantime = "=2.4.0"
regex = "=1.13.1"
anyhow = "=1.0.104"
tracing = "=0.1.44"
chrono = { version = "=0.4.45", default-features = false, features = ["clock"] }
serenity = "=0.12.5"
poise = "=0.6.2"
tokio = { version = "1", features = ["rt-multi-thread", "macros"] }
