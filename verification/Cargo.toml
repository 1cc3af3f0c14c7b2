[package]
name = "oxdz"
version = "0.1.0"
edition = "2021"
publish = false

[dependencies]
byteorder = "1"
memmap = "0.7"
riff-wave = "0.1"
getopts = "0.2"
