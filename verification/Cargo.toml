[package]
name = "futex_sync"
version = "0.1.0"
edition = "2021"
publish = false

[dependencies]
rustix = { version = "*", features = ["thread", "time"] }
lock_api = "*"
