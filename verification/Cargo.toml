[package]
name = "zero2prod"
version = "0.1.0"
edition = "2021"
publish = false

[dependencies]
uuid = { version = "=1.27.0", features = ["v4"] }
chrono = { version = "=0.4.45", default-features = false, features = ["clock"] }
unicode-segmentation = "1"
