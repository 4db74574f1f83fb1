[package]
name = "osx"
version = "0.1.0"
edition = "2021"
publish = false

[dependencies]
clap = { version = "*", features = ["derive"] }
colored = "*"
glob = "*"
rayon = "*"
tabled = "*"
walkdir = "*"
