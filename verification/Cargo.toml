[package]
name = "service-sdk"
version = "0.1.0"
edition = "2021"
publish = false

[dependencies]
async-trait = "0.1"
metrics = "0.22"
metrics-prometheus = "0.6"
proc-macro2 = "1"
prometheus = "0.13"
quote = "1"
stopwatch = "0.0.7"
tokio = { version = "1", features = ["rt", "macros"] }
tonic = "0.11"
tower = "0.4"
