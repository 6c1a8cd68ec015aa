[package]
name = "russet_trust"
version = "0.1.0"
edition = "2021"
publish = false

[dependencies]
crc = "=3.4.0"
uefi = { version = "=0.41.0", features = ["alloc"] }
