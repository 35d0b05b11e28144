[package]
name = "clipboard"
version = "0.5.0"
edition = "2021"
publish = false

[dependencies]
x11-clipboard = "0.9"
clipboard-win = "2.1"
objc = "0.2"
objc_id = "0.1"
objc-foundation = "0.1"
