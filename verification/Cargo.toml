[package]
name = "mplxcore_gateway"
version = "0.1.0"
edition = "2021"
publish = false

[dependencies]
anchor-lang = "=0.31.2"
mpl-core = "=0.12.1"
