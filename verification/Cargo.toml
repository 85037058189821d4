[package]
name = "simple_proxy"
version = "0.1.0"
edition = "2021"
publish = false

[dependencies]
structopt = "0.2"
tokio = "0.1"
