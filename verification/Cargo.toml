[package]
name = "toto"
version = "0.1.0"
edition = "2021"
publish = false

[dependencies]
petgraph = "0.6"
url = "2"
yaml-peg = "1"
anyhow = "1"
