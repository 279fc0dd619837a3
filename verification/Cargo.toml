[package]
name = "r2lay"
version = "0.1.0"
edition = "2021"
publish = false

[dependencies]
anyhow = "1"
clap = "2"
log = "0.4"
pretty_env_logger = "*"
structopt = "0.3"
tokio = { version = "1", features = ["net", "io-util", "rt-multi-thread", "macros"] }
