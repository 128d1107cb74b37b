[package]
name = "tcprelay"
version = "0.1.0"
edition = "2021"
publish = false

[dependencies]
mio = "0.6"
mio-more = "0.1"
structopt = "0.3"
clap = "2"
