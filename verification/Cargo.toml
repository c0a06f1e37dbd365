[package]
name = "task_wake"
version = "0.1.0"
edition = "2021"
publish = false

[dependencies]
embedded-svc = { version = "=0.22.3", features = ["isr-async-executor"] }
esp-idf-hal = "=0.38.1"
esp-idf-sys = "=0.31.12"
