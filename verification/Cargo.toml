[package]
name = "next-core"
version = "0.1.0"
edition = "2021"
publish = false

[dependencies]
anyhow = "1"
once_cell = "1"
turbo-rcstr = "0.1.0"
