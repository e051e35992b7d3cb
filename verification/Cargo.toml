[package]
name = "geo-normalized"
version = "0.2.0"
edition = "2021"
publish = false

[dependencies]
geo = "*"
num-traits = "*"
