[package]
name = "memory_metrics"
version = "0.1.0"
edition = "2021"
publish = false

[dependencies]
sysinfo = "=0.39.6"
prometheus = "=0.13.4"
