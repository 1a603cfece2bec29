[package]
name = "redoxer"
version = "0.1.0"
edition = "2021"
publish = false

[dependencies]
anyhow = "=1.0.104"
dirs = "=7.0.0"
tempfile = "=3.27.0"
proc-mounts = "=0.3.0"
