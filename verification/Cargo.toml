[package]
name = "wasmer_ios"
version = "0.1.0"
edition = "2021"
publish = false

[dependencies]
libc = "=0.2.190"
tokio = { version = "=1.53.2", features = ["rt", "fs", "io-util", "time"] }
wasmer = "=4.4.0"
