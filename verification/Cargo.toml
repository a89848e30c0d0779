[package]
name = "vmrun"
version = "0.1.0"
edition = "2021"
publish = false

[dependencies]
xmas-elf = "=0.10.0"
kvm-bindings = "=0.14.1"
kvm-ioctls = "=0.25.0"
sparse-bitfield = "*"
