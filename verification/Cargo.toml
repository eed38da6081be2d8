[package]
name = "bcm283x"
version = "0.1.0"
edition = "2021"
publish = false

[dependencies]
log = "=0.4.35"
kspin = "=0.2.0"
rdif-base = "=0.9.1"
rdif-display = "=0.4.0"
libc = "=0.2.191"
axplat = { version = "=0.4.2", features = ["irq", "smp"] }
axcpu = "=0.3.1"
