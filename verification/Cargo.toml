[package]
name = "ntp_filter"
version = "0.1.0"
edition = "2021"
publish = false

[dependencies]
libc = "0.2"
rand = "0.8"
tokio = { version = "1", features = ["rt", "time", "sync", "macros", "net"] }
tracing = "0.1"
timestamped-socket = "*"
