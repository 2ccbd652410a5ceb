[package]
name = "axhal"
version = "0.1.0"
edition = "2021"
publish = false

[dependencies]
arm_gicv2 = "*"
tock-registers = "*"
kspin = "*"
memory_addr = "*"
aarch64-cpu = "*"
axcpu = "*"
