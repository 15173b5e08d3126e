[package]
name = "eravm_decode"
version = "0.1.0"
edition = "2021"
publish = false

[dependencies]
zkevm_opcode_defs = "*"
