[package]
name = "swap"
version = "0.1.0"
edition = "2021"
publish = false

[dependencies]
frame-support = "=3.0.0"
frame-system = "=3.0.0"
sp-std = "=3.0.0"
substrate-bip39 = "=0.4.2"
syn = "=1.0.58"
