[package]
name = "wallers"
version = "0.1.2"
edition = "2021"
publish = false

[dependencies]
clap = "2"
curl = "0.4"
rand = "0.4"
sha2 = "0.10"
user32-sys = "0.2"
