[package]
name = "mozjs"
version = "0.1.0"
edition = "2021"
publish = false

[dependencies]
heapsize = "0.4"
libc = "0.2"
log = "0.4"
