[package]
name = "orioledb"
version = "0.1.0"
edition = "2021"
publish = false

[dependencies]
libc = "=0.2.191"
memoffset = "=0.9.1"
pgrx = "=0.16.1"
