[package]
name = "paintcannon"
version = "0.1.0"
edition = "2021"
publish = false

[dependencies]
unicode-linebreak = "=0.1.5"
unicode-segmentation = "=1.13.3"
crossbeam-channel = "=0.5.17"
crossterm = "=0.29.0"
libc = "=0.2.191"
napi = { version = "=3.16.1", features = ["napi4"] }
napi-derive = "=3.7.0"
termprofile = { version = "=0.2.5", features = ["convert"] }
