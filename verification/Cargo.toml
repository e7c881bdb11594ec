[package]
name = "dji_referee"
version = "0.1.0"
edition = "2021"
publish = false

[dependencies]
portable-atomic = "=1.15.0"
heapless = "=0.9.3"
defmt = "=1.2.0"
