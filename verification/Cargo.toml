[package]
name = "mem_barrier"
version = "0.1.0"
edition = "2021"
publish = false

[dependencies]
cfg-if = "1"
