[package]
name = "gradle_graph"
version = "0.1.0"
edition = "2021"
publish = false

[dependencies]
glob = "0.3"
rand = "0.8"
regex = "1"
