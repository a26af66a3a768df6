[package]
name = "zola"
version = "0.1.0"
edition = "2021"
publish = false

[dependencies]
serenity = "0.8"
rand = "0.7"
image = "0.23"
imageproc = "0.20"
rusttype = "0.8"
log = "0.4"
env_logger = "0.7"
kankyo = "0.2"
