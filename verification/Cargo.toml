[package]
name = "srt_error"
version = "0.1.0"
edition = "2021"
publish = false

[dependencies]
libsrt-sys = "*"
thiserror = "1"
