[package]
name = "hotserve"
version = "0.1.0"
edition = "2021"
publish = false

[dependencies]
argh = "*"
async-std = "*"
chrono = "*"
colored = "*"
hotwatch = "*"
mimalloc = "*"
open = "*"
tide = "*"
