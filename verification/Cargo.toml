[package]
name = "coap"
version = "0.1.0"
edition = "2021"
publish = false

[dependencies]
bytes = "*"
mio = { version = "*", features = ["net", "os-poll"] }
threadpool = "*"
