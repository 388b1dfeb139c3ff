[package]
name = "mini_grep"
version = "0.1.0"
edition = "2021"
publish = false

[dependencies]
regex = "1"
walkdir = "2"
rayon = "1"
