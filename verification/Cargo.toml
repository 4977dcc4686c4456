[package]
name = "resource_store"
version = "0.1.0"
edition = "2021"
publish = false

[dependencies]
atomic_refcell = "0.1"
rustc-hash = "*"
