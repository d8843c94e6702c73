[package]
name = "ferrumvm"
version = "0.1.0"
edition = "2021"
publish = false

[dependencies]
chrono = "=0.4.45"
kvm-ioctls = "=0.25.1"
kvm-bindings = { version = "=0.14.2", features = ["fam-wrappers"] }
vmm-sys-util = "=0.15.0"
libc = "=0.2.191"
crossterm = "=0.29.0"
