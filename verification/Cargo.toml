[package]
name = "litepack"
version = "0.1.0"
edition = "2021"
publish = false

[dependencies]
zip = "=8.6.0"
sevenz-rust2 = "=0.21.4"
walkdir = "=2.5.0"
urlencoding = "=2.1.3"
path-slash = "=0.2.1"
thiserror = "=2.0.21"
clap = { version = "=4.6.7", features = ["derive"] }
ctrlc = "=3.5.2"
indicatif = "=0.18.6"
anyhow = "=1.0.104"
