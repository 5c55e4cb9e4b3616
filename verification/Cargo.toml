[package]
name = "rtmp_ingest"
version = "0.1.0"
edition = "2021"
publish = false

[dependencies]
bytes = "1"
scuffle-flv = "*"
scuffle-rtmp = "*"
tokio = { version = "1", features = ["net", "rt-multi-thread", "macros"] }
tracing = "0.1"
tracing-subscriber = "0.3"
