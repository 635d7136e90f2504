[package]
name = "trap_core"
version = "0.1.0"
edition = "2021"
publish = false

[dependencies]
bit_field = "0.10"
riscv = "0.7"
spin = "0.7"
buddy_system_allocator = "*"
