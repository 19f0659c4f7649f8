[package]
name = "cucumber_trellis"
version = "0.1.0"
edition = "2021"
publish = false

[dependencies]
futures = "0.3"
path-absolutize = "3"
tokio = { version = "1", features = ["rt", "rt-multi-thread"] }
cucumber = "*"
syn = { version = "2", features = ["full"] }
quote = "1"
proc-macro2 = "1"
