[package]
name = "smol-hyper"
version = "0.1.0"
edition = "2021"
publish = false

[dependencies]
async-executor = "1"
async-io = "2"
futures-io = "0.3"
hyper = "1"
pin-project-lite = "0.2"

[dev-dependencies]
futures-lite = "2"
