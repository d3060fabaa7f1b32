[package]
name = "async_std_hyper"
version = "0.1.0"
edition = "2021"
publish = false

[dependencies]
async-std = "1"
hyper = "0.13"
tokio = "0.2"
