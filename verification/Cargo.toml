[package]
name = "ext4_reader"
version = "0.1.0"
edition = "2021"
publish = false

[dependencies]
positioned-io = "*"
