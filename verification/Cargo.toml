[package]
name = "libwasmvm"
version = "0.1.0"
edition = "2021"
publish = false

[dependencies]
owasm-vm = "*"
failure = "0.1"
