[package]
name = "hci_core"
version = "0.1.0"
edition = "2021"
publish = false

[dependencies]
libc = "0.2"
socket2 = "0.5"
