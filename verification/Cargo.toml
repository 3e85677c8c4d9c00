[package]
name = "effect_sched"
version = "0.1.0"
edition = "2021"
publish = false

[dependencies]
rlua = "0.17"
tokio = { version = "0.2", features = ["full"] }
reqwest = "0.10"
