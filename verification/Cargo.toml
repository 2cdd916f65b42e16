[package]
name = "zmq"
version = "0.5.0"
edition = "2021"
publish = false

[dependencies]
libc = "0.2"
log = "0.4"
