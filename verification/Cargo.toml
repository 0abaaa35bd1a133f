[package]
name = "loongarch_vcpu"
version = "0.1.0"
edition = "2021"
publish = false

[dependencies]
bit_field = "=0.10.3"
axaddrspace = "0.1"
axerrno = "0.1"
axvcpu = "=0.1.1"
