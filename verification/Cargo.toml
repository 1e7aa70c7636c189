[package]
name = "noleader"
version = "0.1.0"
edition = "2021"
publish = false

[dependencies]
anyhow = "=1.0.104"
async-nats = "=0.51.0"
async-trait = "=0.1.92"
bytes = "=1.12.1"
rand = "=0.9.5"
sqlx = { version = "=0.9.0", default-features = false, features = ["postgres", "runtime-tokio", "migrate", "macros"] }
tokio = { version = "=1.54.1", features = ["sync", "time", "rt", "macros"] }
tokio-util = "=0.7.20"
tracing = "=0.1.44"
uuid = { version = "=1.29.0", features = ["v7"] }
