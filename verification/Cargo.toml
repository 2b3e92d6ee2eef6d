[package]
name = "rbl"
version = "0.1.0"
edition = "2021"
publish = false

[dependencies]
bitflags = "1"
r0 = "1"
riscv = "0.10"
volatile = "0.2"
