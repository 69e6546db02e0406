[package]
name = "gai_resolver"
version = "0.1.0"
edition = "2021"
publish = false

[dependencies]
hyper = "0.12"
libc = "0.2"
socket2 = "0.3"
tokio = "0.1"
tokio-threadpool = "0.1"
