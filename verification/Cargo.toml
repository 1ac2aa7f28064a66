[package]
name = "hikami_eval"
version = "0.1.0"
edition = "2021"
publish = false

[dependencies]
riscv = "=0.12.1"
