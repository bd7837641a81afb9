[package]
name = "command_run"
version = "1.0.0"
edition = "2021"
publish = false

[dependencies]
log = "0.4"
os_pipe = "1"
