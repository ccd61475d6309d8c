[package]
name = "lt_kafka"
version = "0.1.0"
edition = "2021"
publish = false

[dependencies]
base64 = "0.13"
bincode = "1.3"
log = "0.4"
pyo3 = "0.13"
rdkafka = "0.26"
reqwest = { version = "0.11", features = ["blocking", "json"] }
retry = "1.2"
rocksdb = "0.16"
serde = { version = "1", features = ["derive"] }
serde_json = "1"
simplelog = "0.9"
