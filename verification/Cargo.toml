[package]
name = "gsr_jit"
version = "0.1.0"
edition = "2021"
publish = false

[dependencies]
libc = "0.2"
notify = "*"
page_size = "*"
syn = { version = "2", features = ["full"] }
