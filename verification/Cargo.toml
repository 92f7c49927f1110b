[package]
name = "neenee_code"
version = "0.1.0"
edition = "2021"
publish = false

[dependencies]
unicode-segmentation = "*"
unicode-width = "*"
crossterm = "*"
tokio = { version = "*", features = ["rt", "sync", "time", "macros"] }
tokio-util = "*"
