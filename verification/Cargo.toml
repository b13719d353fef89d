[package]
name = "daw_backend"
version = "0.1.0"
edition = "2021"
publish = false

[dependencies]
rusty-daw-core = "=0.3.2"
basedrop = "=0.1.3"
atomic_refcell = "=0.1.14"
