[package]
name = "starry_process"
version = "0.1.0"
edition = "2021"
publish = false

[dependencies]
axerrno = "*"
linux-raw-sys = "*"
shlex = "*"
