[package]
name = "bench_report"
version = "0.1.0"
edition = "2021"
publish = false

[dependencies]
colored = "*"
human-repr = "*"
tracing = "*"
