[package]
name = "screen_masking"
version = "0.1.0"
edition = "2021"
publish = false

[dependencies]
block2 = "*"
objc2 = "*"
objc2-app-kit = "*"
objc2-foundation = "*"
