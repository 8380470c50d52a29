[package]
name = "qs"
version = "0.1.0"
edition = "2021"
publish = false

[dependencies]
bytes = "1"
itoa = "1"
lru = "*"
tokio = { version = "1", features = ["net", "rt", "sync", "time", "io-util"] }
futures-core = "0.3"
futures-util = "0.3"
event-listener = "5"
log = "0.4"
