[package]
name = "task_executor"
version = "0.1.0"
edition = "2021"
publish = false

[dependencies]
crossbeam = "*"
futures = "*"
futures-timer = "*"
