[package]
name = "klv_uas"
version = "0.1.0"
edition = "2021"
publish = false

[dependencies]
bitvec = "1"
memmem = "0.1"
log = "0.4"
