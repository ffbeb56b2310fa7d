[package]
name = "flow_guard"
version = "0.1.0"
edition = "2021"
publish = false

[dependencies]
axum = "*"
parking_lot = "*"
thiserror = "*"
tokio = { version = "*", features = ["sync", "time"] }
