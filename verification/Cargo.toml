[package]
name = "route_node"
version = "0.1.0"
edition = "2021"
publish = false

[dependencies]
crossbeam-channel = "=0.5.17"
tokio = { version = "=1.53.2", default-features = false, features = ["sync", "rt-multi-thread", "time", "macros"] }
