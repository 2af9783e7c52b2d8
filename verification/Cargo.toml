[package]
name = "date_ops"
version = "0.1.0"
edition = "2021"
publish = false

[dependencies]
chrono = { version = "0.4", default-features = false, features = ["std"] }
serde_json = "1"
serde = { version = "1", features = ["derive"] }
once_cell = "1"
eyre = "0.6"
fluvio-smartmodule = "*"
