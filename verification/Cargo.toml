[package]
name = "cloudwatch-logging"
version = "0.2.51"
edition = "2021"
publish = false

[dependencies]
rusoto_core = "0.48"
rusoto_logs = "0.48"
tokio = { version = "1", features = ["sync", "time", "rt", "rt-multi-thread", "macros"] }
async-trait = "0.1"
