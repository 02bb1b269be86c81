[package]
name = "skctx"
version = "0.1.0"
edition = "2021"
publish = false

[dependencies]
dirs = "*"
clap = "3"
clap_generate = "3"
