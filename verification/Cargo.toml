[package]
name = "telemetry_frame"
version = "0.1.0"
edition = "2021"
publish = false

[dependencies]
crc32fast = "1"
rand = "0.8"
tokio = { version = "1", features = ["net", "time", "rt", "macros"] }
anyhow = "1"
