[package]
name = "redlock"
version = "0.1.0"
edition = "2021"
publish = false

[dependencies]
uuid = { version = "1", features = ["v4"] }
redis = "*"
structopt = "0.3"
ctrlc = "3"
env_logger = "0.11"
log = "0.4"
colored = "2"
