[package]
name = "initrd_shim"
version = "0.1.0"
edition = "2021"
publish = false

[dependencies]
uefi = "*"

[dev-dependencies]
goblin = "*"
