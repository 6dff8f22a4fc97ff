[package]
name = "matter_transport"
version = "0.1.0"
edition = "2021"
publish = false

[dependencies]
heapless = "0.7"
embassy-futures = "0.1"
embassy-sync = "0.2"
embassy-time = "0.1"
log = "0.4"
