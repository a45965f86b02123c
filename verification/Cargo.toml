[package]
name = "chrono_lc"
version = "0.1.0"
edition = "2021"
publish = false

[dependencies]
chrono = { version = "0.4", default-features = false, features = ["std"] }
lazy_static = "1"
num-integer = "0.1"
