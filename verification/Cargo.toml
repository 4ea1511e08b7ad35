[package]
name = "caffeine"
version = "0.1.0"
edition = "2021"
publish = false

[dependencies]
x86_64 = { version = "=0.14.13", default-features = false, features = ["instructions"] }
bootloader = "=0.10.13"
spin = "=0.9.9"
lazy_static = "=1.5.1"
conquer-once = "=0.3.2"
volatile = "=0.2.7"
