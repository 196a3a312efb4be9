[package]
name = "swap-buffer-queue"
version = "0.2.0"
edition = "2021"
publish = false

[dependencies]
crossbeam-utils = "0.8"
futures-core = "0.3"
futures-util = "0.3"
