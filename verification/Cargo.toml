[package]
name = "lightproc"
version = "0.1.0"
edition = "2021"
publish = false

[dependencies]
crossbeam-utils = "*"
lazy_static = "*"
rustc-hash = "*"
