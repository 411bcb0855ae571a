[package]
name = "async_file"
version = "0.1.0"
edition = "2021"
publish = false

[dependencies]
piper = "*"
async-task = "*"

[dev-dependencies]
waker-fn = "*"
