[package]
name = "asm_os"
version = "0.1.0"
edition = "2021"
publish = false

[dependencies]
crossbeam-queue = "=0.3.14"
pc-keyboard = "=0.9.0"
vte = "*"
x86_64 = "=0.14.13"
