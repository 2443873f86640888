[package]
name = "kernel_core"
version = "0.1.0"
edition = "2021"
publish = false

[dependencies]
x86_64 = { version = "=0.14.13", default-features = false, features = ["instructions"] }
volatile = "=0.2.7"
spin = "=0.5.2"
lazy_static = "=1.5.1"
