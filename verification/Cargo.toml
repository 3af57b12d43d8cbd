[package]
name = "flow_field"
version = "0.1.0"
edition = "2021"
publish = false

[dependencies]
nannou = "0.19"
noise = "*"
rand = "0.8"
