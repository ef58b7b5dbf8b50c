[package]
name = "weathe_rs"
version = "0.1.0"
edition = "2021"
publish = false

[dependencies]
xml = "=1.4.0"
rustc-serialize = "=0.3.25"
toml = "=1.1.7"
hyper = "=0.10.16"
docopt = "=1.1.1"
