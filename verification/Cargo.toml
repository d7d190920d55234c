[package]
name = "gallifreyan"
version = "0.1.0"
edition = "2021"
publish = false

[dependencies]
unicode-segmentation = "=1.13.3"
itertools = "=0.15.0"
bevy = { version = "=0.14.2", default-features = false }
futures = "=0.3.34"
