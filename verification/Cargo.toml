[package]
name = "table_constraints"
version = "0.1.0"
edition = "2021"
publish = false

[dependencies]
chrono = "0.4"
datafusion = { version = "*", default-features = false }
futures = "0.3"
serde_json = "1"
tokio = { version = "1", features = ["rt"] }
