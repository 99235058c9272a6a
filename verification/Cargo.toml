[package]
name = "vibemusic"
version = "0.1.0"
edition = "2021"
publish = false

[dependencies]
ringbuf = "0.4"
serde_json = "1"
which = "*"
dirs = "*"
