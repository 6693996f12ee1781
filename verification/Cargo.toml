[package]
name = "thread_cell"
version = "0.1.0"
edition = "2021"
publish = false

[dependencies]
crossbeam = "0.8"
tokio = { version = "1", features = ["rt", "rt-multi-thread", "sync", "time", "macros"] }
