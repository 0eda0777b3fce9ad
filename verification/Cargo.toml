[package]
name = "bl602_clic"
version = "0.1.0"
edition = "2021"
publish = false

[dependencies]
embedded-time = "0.12"
riscv = "0.10"
