[package]
name = "sdop_game"
version = "0.1.0"
edition = "2021"
publish = false

[dependencies]
fastrand = "=2.5.0"
chrono = { version = "=0.4.45", default-features = false, features = ["alloc"] }
bincode = { version = "=2.0.1", default-features = false, features = ["derive", "alloc"] }
heapless = "0.8"
