[package]
name = "rundown"
version = "0.1.0"
edition = "2021"
publish = false

[dependencies]
anyhow = "1"
indexmap = "1"
markdown = "0.3"
slugify = "0.1"
structopt = "0.3"
