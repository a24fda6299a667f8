[package]
name = "readygate"
version = "0.1.0"
edition = "2021"
publish = false

[dependencies]
lock_api = "=0.4.14"
parking_lot = "=0.12.5"
rand = "=0.10.3"

[dev-dependencies]
crossbeam-utils = "=0.8.23"
