[package]
name = "epserde"
version = "0.1.0"
edition = "2021"
publish = false

[dependencies]
xxhash-rust = { version = "=0.8.19", features = ["xxh3"] }
mmap-rs = "=0.6.1"
anyhow = "=1.0.104"
maligned = "=0.2.1"
syn = { version = "=2.0.119", features = ["full"] }
quote = "=1.0.47"
proc-macro2 = "=1.0.107"
