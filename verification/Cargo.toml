[package]
name = "timetag_parquet"
version = "0.1.0"
edition = "2021"
publish = false

[dependencies]
anyhow = "1"
arrow = { version = "*", default-features = false }
chrono = "0.4"
parquet = { version = "*", default-features = false, features = ["arrow"] }
rand = "0.9"

[dev-dependencies]
bytes = "1"
