[package]
name = "docserver"
version = "0.1.0"
edition = "2021"
publish = false

[dependencies]
mime_guess = "2"
cargo_metadata = "*"
hyper = "0.12"
futures = "0.1"
tokio-fs = "0.1"
tokio-io = "0.1"
structopt = "0.3"
