[package]
name = "prototyper_trap"
version = "0.1.0"
edition = "2021"
publish = false

[dependencies]
riscv-decode = "=0.2.3"
riscv = "=0.11.1"
sbi-spec = { version = "=0.0.7", features = ["legacy"] }
rustsbi = "=0.4.1"
fast-trap = { version = "=0.0.1", features = ["riscv-m"] }
log = "=0.4.35"
