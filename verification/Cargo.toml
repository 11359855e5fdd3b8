[package]
name = "starry"
version = "0.1.0"
edition = "2021"
publish = false

[dependencies]
axerrno = "=0.1.2"
x86 = "=0.52.0"
log = "=0.4.35"
