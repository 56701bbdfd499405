[package]
name = "vmm_arch"
version = "0.1.0"
edition = "2021"
publish = false

[dependencies]
vm-fdt = "*"
vm-memory = "*"
kvm-bindings = "*"
kvm-ioctls = "*"
vm-superio = "*"
thiserror = "*"
log = "*"
