[package]
name = "unmatched_sbi"
version = "0.1.0"
edition = "2021"
publish = false

[dependencies]
rustsbi = { version = "=0.3.2", default-features = false }
riscv = "=0.8.0"
embedded-hal = "=0.2.7"
nb = "=1.1.0"
r0 = "=0.2.2"
buddy_system_allocator = "=0.8.0"
