[package]
name = "sgleam"
version = "0.1.0"
edition = "2021"
publish = false

[dependencies]
camino = "1.1"
clap = { version = "4.5", features = ["derive"] }
ctrlc = "3.4"
ecow = "0.2"
im = "15.1"
indoc = "2.0"
rquickjs = { version = "0.9", features = ["loader"] }
rust-embed = "8"
rustyline = "15"
tar = "0.4"
termcolor = "1.4"
thiserror = "2"
tracing = "0.1"
vec1 = "1.12"
