[package]
name = "forma"
version = "0.1.0"
edition = "2021"
publish = false

[dependencies]
sqlparser = "=0.63.0"
structopt = "=0.3.26"
